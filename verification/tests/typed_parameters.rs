use virt::typedparam::sys::{virTypedParameter, FIELD_LENGTH};
use virt::typedparam::TypedParameterType;

#[test]
fn the_default_parameter_is_all_zero() {
    let param = virTypedParameter::default();
    assert_eq!(param.field.len(), 80);
    assert!(param.field.iter().all(|c| *c == 0));
    assert_eq!(param.typed, 0);
    assert_eq!(param.value, 0);
}

#[test]
fn the_name_field_has_eighty_bytes() {
    assert_eq!(FIELD_LENGTH, 80);
    assert_eq!(virTypedParameter::default().field.len(), FIELD_LENGTH);
}

#[test]
fn a_parameter_is_copied_whole() {
    let mut param = virTypedParameter::default();
    param.field[0] = 0x6d;
    param.typed = TypedParameterType::Ullong.to_raw() as i32;
    param.value = u64::MAX;
    let copy = param;
    assert_eq!(copy.field[0], 0x6d);
    assert_eq!(copy.field[1], 0);
    assert_eq!(TypedParameterType::from_raw(copy.typed as u32), Ok(TypedParameterType::Ullong));
    assert_eq!(copy.value, u64::MAX);
    let clone = param.clone();
    assert_eq!(clone.value, param.value);
}

#[test]
fn the_zeroed_type_tag_names_no_kind() {
    let param = virTypedParameter::default();
    assert!(TypedParameterType::from_raw(param.typed as u32).is_err());
}
