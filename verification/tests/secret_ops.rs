use virt::connect::sys::virConnectPtr;
use virt::connect::{Connect, ConnectCall};
use virt::native::{BufferCall, CountCall, ReleaseCall, StatusCall, Step, TextCall};
use virt::secret::sys::virSecretPtr;
use virt::secret::{Secret, SecretCall, ValueCall, XMLFlags};

fn conn() -> Connect {
    Connect::new(virConnectPtr { addr: 0x1000 })
}

fn secret() -> Secret {
    Secret::new(virSecretPtr { addr: 0x2000 })
}

#[test]
fn a_new_secret_holds_its_handle() {
    let s = Secret::new(virSecretPtr { addr: 77 });
    assert!(s.is_live());
    assert_eq!(s.as_ptr(), virSecretPtr { addr: 77 });
    assert_eq!(s.as_ptr().addr, 77);
}

#[test]
fn null_is_address_zero() {
    assert!(virSecretPtr { addr: 0 }.is_null());
    assert!(!virSecretPtr { addr: 1 }.is_null());
    assert!(virConnectPtr { addr: 0 }.is_null());
    assert!(!virConnectPtr { addr: usize::MAX }.is_null());
}

#[test]
fn secret_get_connect_hands_over_the_handle() {
    assert_eq!(
        secret().get_connect(),
        ConnectCall::SecretGetConnect { secret: virSecretPtr { addr: 0x2000 } }
    );
}

#[test]
fn connect_reply_wraps_the_handle() {
    let call = secret().get_connect();
    assert_eq!(call.reply(virConnectPtr { addr: 0 }), Step::ReadError);
    match call.reply(virConnectPtr { addr: 0x1000 }) {
        Step::Done(Ok(c)) => {
            assert!(c.is_live());
            assert_eq!(c.as_ptr(), virConnectPtr { addr: 0x1000 });
        }
        other => panic!("no connection: {:?}", other),
    }
}

#[test]
fn define_xml_marshals_the_document() {
    let call = Secret::define_xml(&conn(), "<secret/>", 0);
    assert_eq!(
        call,
        SecretCall::DefineXML {
            conn: virConnectPtr { addr: 0x1000 },
            xml: b"<secret/>\0".to_vec(),
            flags: 0,
        }
    );
}

#[test]
fn lookup_by_uuid_string_marshals_the_uuid() {
    let call = Secret::lookup_by_uuid_string(&conn(), "c9f4b1d4-5a3e-4c0e-9d6a-2f1b7e8a9c10");
    assert_eq!(
        call,
        SecretCall::LookupByUUIDString {
            conn: virConnectPtr { addr: 0x1000 },
            uuid: b"c9f4b1d4-5a3e-4c0e-9d6a-2f1b7e8a9c10\0".to_vec(),
        }
    );
}

#[test]
fn lookup_by_usage_marshals_type_and_id() {
    let call = Secret::lookup_by_usage(&conn(), 2, "client.libvirt secret");
    assert_eq!(
        call,
        SecretCall::LookupByUsage {
            conn: virConnectPtr { addr: 0x1000 },
            usage_type: 2,
            usage_id: b"client.libvirt secret\0".to_vec(),
        }
    );
    match Secret::lookup_by_usage(&conn(), -5, "") {
        SecretCall::LookupByUsage { usage_type, usage_id, .. } => {
            assert_eq!(usage_type, -5);
            assert_eq!(usage_id, vec![0]);
        }
        other => panic!("wrong call: {:?}", other),
    }
}

#[test]
fn secret_reply_wraps_the_handle() {
    let call = Secret::lookup_by_uuid_string(&conn(), "x");
    match call.reply(virSecretPtr { addr: 0x2468 }) {
        Step::Done(Ok(s)) => {
            assert!(s.is_live());
            assert_eq!(s.as_ptr(), virSecretPtr { addr: 0x2468 });
        }
        other => panic!("no secret: {:?}", other),
    }
}

#[test]
fn secret_reply_fails_on_null() {
    let call = Secret::define_xml(&conn(), "<secret/>", 0);
    assert_eq!(call.reply(virSecretPtr { addr: 0 }), Step::ReadError);
}

#[test]
fn secret_accessors_hand_over_the_handle() {
    let ptr = virSecretPtr { addr: 0x2000 };
    assert_eq!(secret().get_name(), TextCall::SecretGetName { secret: ptr });
    assert_eq!(secret().get_usage_id(), TextCall::SecretGetUsageID { secret: ptr });
    assert_eq!(secret().get_usage_type(), CountCall::SecretGetUsageType { secret: ptr });
    assert_eq!(secret().get_uuid_string(), BufferCall::SecretGetUUIDString { secret: ptr });
}

#[test]
fn secret_get_xml_desc_encodes_the_flag() {
    assert_eq!(
        secret().get_xml_desc(XMLFlags::INACTIVE),
        TextCall::SecretGetXMLDesc { secret: virSecretPtr { addr: 0x2000 }, flags: 1 }
    );
}

#[test]
fn set_value_declares_the_length() {
    assert_eq!(
        secret().set_value(b"open sesame", 0),
        StatusCall::SecretSetValue {
            secret: virSecretPtr { addr: 0x2000 },
            value: b"open sesame".to_vec(),
            size: 11,
            flags: 0,
        }
    );
    assert_eq!(
        secret().set_value(&[0, 1, 0], 7),
        StatusCall::SecretSetValue {
            secret: virSecretPtr { addr: 0x2000 },
            value: vec![0, 1, 0],
            size: 3,
            flags: 7,
        }
    );
    assert_eq!(
        secret().set_value(&[], 0),
        StatusCall::SecretSetValue {
            secret: virSecretPtr { addr: 0x2000 },
            value: vec![],
            size: 0,
            flags: 0,
        }
    );
}

#[test]
fn get_value_declares_the_size() {
    let ptr = virSecretPtr { addr: 0x2000 };
    assert_eq!(secret().get_value(11, 0), ValueCall { secret: ptr, size: 11, flags: 0 });
    assert_eq!(secret().get_value(0, 3), ValueCall { secret: ptr, size: 0, flags: 3 });
}

#[test]
fn get_value_declares_nothing_for_a_negative_size() {
    let ptr = virSecretPtr { addr: 0x2000 };
    assert_eq!(secret().get_value(-1, 0), ValueCall { secret: ptr, size: 0, flags: 0 });
    assert_eq!(secret().get_value(isize::MIN, 0), ValueCall { secret: ptr, size: 0, flags: 0 });
}

#[test]
fn get_value_declares_no_more_than_the_native_size_holds() {
    let ptr = virSecretPtr { addr: 0x2000 };
    if isize::BITS > 32 {
        assert_eq!(
            secret().get_value(isize::MAX, 0),
            ValueCall { secret: ptr, size: u32::MAX, flags: 0 }
        );
    }
    assert_eq!(
        secret().get_value(i32::MAX as isize, 0),
        ValueCall { secret: ptr, size: i32::MAX as u32, flags: 0 }
    );
}

#[test]
fn value_reply_takes_the_declared_bytes() {
    let call = secret().get_value(4, 0);
    assert_eq!(call.reply(Some(&b"open sesame"[..])), Step::Done(Ok(b"open".to_vec())));
    assert_eq!(call.reply(Some(&b"open"[..])), Step::Done(Ok(b"open".to_vec())));
    let none = secret().get_value(0, 0);
    assert_eq!(none.reply(Some(&b"open"[..])), Step::Done(Ok(Vec::new())));
}

#[test]
fn value_reply_keeps_nul_bytes() {
    let call = secret().get_value(3, 0);
    assert_eq!(call.reply(Some(&[0u8, 1, 0, 9][..])), Step::Done(Ok(vec![0, 1, 0])));
}

#[test]
fn value_reply_takes_what_there_is_where_it_is_less() {
    let call = secret().get_value(8, 0);
    assert_eq!(call.reply(Some(&b"abc"[..])), Step::Done(Ok(b"abc".to_vec())));
}

#[test]
fn value_reply_fails_on_null() {
    let call = secret().get_value(8, 0);
    assert_eq!(call.reply(None), Step::ReadError);
}

#[test]
fn secret_free_asks_for_the_release() {
    assert_eq!(
        secret().free(),
        Some(ReleaseCall::SecretFree { secret: virSecretPtr { addr: 0x2000 } })
    );
}

#[test]
fn secret_undefine_asks_for_the_release() {
    assert_eq!(
        secret().undefine(),
        Some(ReleaseCall::SecretUndefine { secret: virSecretPtr { addr: 0x2000 } })
    );
}

#[test]
fn a_failed_release_leaves_the_secret_held() {
    let mut s = secret();
    assert_eq!(s.release_reply(-1), Step::ReadError);
    assert!(s.is_live());
    assert_eq!(s.as_ptr(), virSecretPtr { addr: 0x2000 });
    assert_eq!(
        s.free(),
        Some(ReleaseCall::SecretFree { secret: virSecretPtr { addr: 0x2000 } })
    );
}

#[test]
fn a_release_that_worked_leaves_nothing_to_release() {
    let mut s = secret();
    assert_eq!(s.release_reply(0), Step::Done(Ok(())));
    assert!(!s.is_live());
    assert_eq!(s.free(), None);
    assert_eq!(s.undefine(), None);
}

#[test]
fn secret_release_is_idempotent() {
    let mut once = secret();
    once.release_reply(0);
    let mut twice = secret();
    twice.release_reply(0);
    twice.release_reply(0);
    assert_eq!(once, twice);
    twice.release_reply(-1);
    assert_eq!(once, twice);
    assert_eq!(twice.free(), None);
}
