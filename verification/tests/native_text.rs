use virt::error::{Error, LastError};
use virt::native::{BufferCall, CountCall, StatusCall, Step, TextCall, UUID_STRING_BUFLEN};
use virt::secret::sys::virSecretPtr;
use virt::storage_vol::sys::virStorageVolPtr;
use virt::stream::sys::virStreamPtr;
use virt::text::{c_chars_to_string, c_str_len, is_c_text, length_to_c_uint, string_to_c_chars};

#[test]
fn text_without_nul_is_c_text() {
    assert!(is_c_text("vol1"));
    assert!(is_c_text(""));
    assert!(is_c_text("<volume><name>vol1</name></volume>"));
    assert!(is_c_text("caf\u{e9} \u{1f600}"));
}

#[test]
fn text_with_nul_is_no_c_text() {
    assert!(!is_c_text("\0"));
    assert!(!is_c_text("vol\01"));
    assert!(!is_c_text("vol1\0"));
}

#[test]
fn c_chars_are_the_bytes_and_a_nul() {
    assert_eq!(string_to_c_chars("vol1"), vec![b'v', b'o', b'l', b'1', 0]);
    assert_eq!(string_to_c_chars(""), vec![0]);
    assert_eq!(string_to_c_chars("\u{e9}"), vec![0xc3, 0xa9, 0]);
}

#[test]
fn c_str_ends_at_the_first_nul() {
    assert_eq!(c_str_len(b"vol1\0"), 4);
    assert_eq!(c_str_len(b"vol1\0rest\0"), 4);
    assert_eq!(c_str_len(b"\0vol1"), 0);
    assert_eq!(c_str_len(b""), 0);
}

#[test]
fn c_str_without_nul_is_the_whole_buffer() {
    assert_eq!(c_str_len(b"vol1"), 4);
    assert_eq!(c_chars_to_string(b"vol1"), "vol1");
}

#[test]
fn c_chars_read_back_as_text() {
    assert_eq!(c_chars_to_string(b"vol1\0"), "vol1");
    assert_eq!(c_chars_to_string(b"/var/lib/libvirt/images/vol1\0\0\0"), "/var/lib/libvirt/images/vol1");
    assert_eq!(c_chars_to_string(b"\0"), "");
    assert_eq!(c_chars_to_string(&[0xc3, 0xa9, 0]), "\u{e9}");
}

#[test]
fn ill_formed_bytes_read_with_replacement_characters() {
    assert_eq!(c_chars_to_string(&[b'a', 0xff, b'b', 0]), "a\u{fffd}b");
    assert_eq!(c_chars_to_string(&[0xc3, 0]), "\u{fffd}");
}

#[test]
fn marshalled_text_reads_back_as_itself() {
    for text in ["vol1", "", "libvirt-rs-test-create", "caf\u{e9}", "\u{1f600} x"] {
        assert!(is_c_text(text));
        assert_eq!(c_chars_to_string(&string_to_c_chars(text)), text);
    }
}

#[test]
fn lengths_keep_their_low_32_bits() {
    assert_eq!(length_to_c_uint(0), 0);
    assert_eq!(length_to_c_uint(2048), 2048);
    assert_eq!(length_to_c_uint(u32::MAX as usize), u32::MAX);
    if usize::BITS > 32 {
        let wide = (1u64 << 32) as usize;
        assert_eq!(length_to_c_uint(wide), 0);
        assert_eq!(length_to_c_uint(wide + 5), 5);
    }
}

#[test]
fn status_reply_tests_the_sentinel() {
    let call = StatusCall::StorageVolWipe { vol: virStorageVolPtr { addr: 1 }, flags: 0 };
    assert_eq!(call.reply(0), Step::Done(Ok(())));
    assert_eq!(call.reply(1), Step::Done(Ok(())));
    assert_eq!(call.reply(-2), Step::Done(Ok(())));
    assert_eq!(call.reply(-1), Step::ReadError);
}

#[test]
fn count_reply_tests_the_sentinel() {
    let call = CountCall::SecretGetUsageType { secret: virSecretPtr { addr: 1 } };
    assert_eq!(call.reply(0), Step::Done(Ok(0)));
    assert_eq!(call.reply(4), Step::Done(Ok(4)));
    assert_eq!(call.reply(i32::MAX), Step::Done(Ok(i32::MAX as u32)));
    assert_eq!(call.reply(-1), Step::ReadError);
}

#[test]
fn count_reply_reads_other_negative_answers_as_unsigned() {
    let call = CountCall::SecretGetUsageType { secret: virSecretPtr { addr: 1 } };
    assert_eq!(call.reply(-2), Step::Done(Ok(4294967294)));
}

#[test]
fn text_reply_tests_the_sentinel() {
    let call = TextCall::StorageVolGetName { vol: virStorageVolPtr { addr: 1 } };
    assert_eq!(call.reply(None), Step::ReadError);
    assert_eq!(call.reply(Some(&b"vol1\0"[..])), Step::Done(Ok(String::from("vol1"))));
    assert_eq!(call.reply(Some(&b"vol1"[..])), Step::Done(Ok(String::from("vol1"))));
    assert_eq!(call.reply(Some(&b""[..])), Step::Done(Ok(String::new())));
}

#[test]
fn text_reply_never_fails_on_ill_formed_bytes() {
    let call = TextCall::SecretGetName { secret: virSecretPtr { addr: 1 } };
    assert_eq!(
        call.reply(Some(&[b'k', 0x80, 0][..])),
        Step::Done(Ok(String::from("k\u{fffd}")))
    );
}

#[test]
fn buffers_of_paths_and_descriptions_are_the_callers() {
    let secret = virSecretPtr { addr: 1 };
    let vol = virStorageVolPtr { addr: 2 };
    assert!(TextCall::SecretGetXMLDesc { secret, flags: 0 }.caller_owns_buffer());
    assert!(TextCall::StorageVolGetPath { vol }.caller_owns_buffer());
    assert!(TextCall::StorageVolGetXMLDesc { vol, flags: 0 }.caller_owns_buffer());
}

#[test]
fn buffers_of_names_keys_and_usage_ids_are_the_librarys() {
    let secret = virSecretPtr { addr: 1 };
    let vol = virStorageVolPtr { addr: 2 };
    assert!(!TextCall::SecretGetName { secret }.caller_owns_buffer());
    assert!(!TextCall::SecretGetUsageID { secret }.caller_owns_buffer());
    assert!(!TextCall::StorageVolGetName { vol }.caller_owns_buffer());
    assert!(!TextCall::StorageVolGetKey { vol }.caller_owns_buffer());
}

#[test]
fn buffer_capacities() {
    assert_eq!(UUID_STRING_BUFLEN, 37);
    let uuid = BufferCall::SecretGetUUIDString { secret: virSecretPtr { addr: 1 } };
    assert_eq!(uuid.capacity(), 37);
    let recv = BufferCall::StreamRecv { stream: virStreamPtr { addr: 1 }, nbytes: 2048 };
    assert_eq!(recv.capacity(), 2048);
    let none = BufferCall::StreamRecv { stream: virStreamPtr { addr: 1 }, nbytes: 0 };
    assert_eq!(none.capacity(), 0);
}

#[test]
fn uuid_reply_reads_the_whole_buffer() {
    let call = BufferCall::SecretGetUUIDString { secret: virSecretPtr { addr: 1 } };
    let mut buffer = [0u8; 37];
    buffer[..36].copy_from_slice(b"c9f4b1d4-5a3e-4c0e-9d6a-2f1b7e8a9c10");
    assert_eq!(
        call.reply(0, &buffer),
        Step::Done(Ok(String::from("c9f4b1d4-5a3e-4c0e-9d6a-2f1b7e8a9c10")))
    );
    assert_eq!(call.reply(-1, &buffer), Step::ReadError);
}

#[test]
fn recv_reply_reads_what_was_received() {
    let call = BufferCall::StreamRecv { stream: virStreamPtr { addr: 1 }, nbytes: 8 };
    let buffer = *b"abcdefgh";
    assert_eq!(call.reply(3, &buffer), Step::Done(Ok(String::from("abc"))));
    assert_eq!(call.reply(8, &buffer), Step::Done(Ok(String::from("abcdefgh"))));
    assert_eq!(call.reply(0, &buffer), Step::Done(Ok(String::new())));
    assert_eq!(call.reply(-1, &buffer), Step::ReadError);
}

#[test]
fn recv_reply_reads_no_further_than_the_buffer() {
    let call = BufferCall::StreamRecv { stream: virStreamPtr { addr: 1 }, nbytes: 4 };
    assert_eq!(call.reply(100, b"abcd"), Step::Done(Ok(String::from("abcd"))));
    assert_eq!(call.reply(2, b""), Step::Done(Ok(String::new())));
}

#[test]
fn recv_reply_stops_at_a_nul() {
    let call = BufferCall::StreamRecv { stream: virStreamPtr { addr: 1 }, nbytes: 8 };
    assert_eq!(call.reply(6, b"ab\0def\0\0"), Step::Done(Ok(String::from("ab"))));
}

#[test]
fn recv_reply_reads_nothing_where_the_stream_would_block() {
    let call = BufferCall::StreamRecv { stream: virStreamPtr { addr: 1 }, nbytes: 8 };
    assert_eq!(call.reply(-2, b"abcdefgh"), Step::Done(Ok(String::new())));
}

#[test]
fn a_done_step_is_its_result() {
    let done: Step<u32> = Step::Done(Ok(7));
    assert!(!done.needs_error());
    assert_eq!(done.finish(None), Ok(7));
    let refused: Step<u32> = Step::Done(Err(Error::UnknownCode { value: 9 }));
    assert!(!refused.needs_error());
    assert_eq!(refused.finish(None), Err(Error::UnknownCode { value: 9 }));
}

#[test]
fn a_done_step_does_not_look_at_the_error_channel() {
    let stale = LastError { code: 38, domain: 7, message: Some(b"an older failure".to_vec()) };
    let done: Step<u32> = Step::Done(Ok(7));
    assert_eq!(done.finish(Some(stale)), Ok(7));
}

#[test]
fn a_failed_step_ends_in_the_captured_error() {
    let failed: Step<u32> = Step::ReadError;
    assert!(failed.needs_error());
    let last = LastError { code: 42, domain: 10, message: Some(b"Domain not found\0".to_vec()) };
    assert_eq!(
        failed.finish(Some(last)),
        Err(Error::NativeCallFailed {
            code: 42,
            domain: 10,
            message: String::from("Domain not found"),
        })
    );
    let failed: Step<()> = Step::ReadError;
    assert_eq!(
        failed.finish(None),
        Err(Error::NativeCallFailed { code: 0, domain: 0, message: String::new() })
    );
}
