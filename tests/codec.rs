use darkpool::encoding::postcard_serialize;
use darkpool::error::{map_calldata_ser_error, CoreError};
use darkpool::scalar::{
    scalar_to_u256, u256_to_scalar, Scalar, U256, MODULUS_L0, MODULUS_L1, MODULUS_L2, MODULUS_L3,
};

fn modulus() -> U256 {
    U256 { l0: MODULUS_L0, l1: MODULUS_L1, l2: MODULUS_L2, l3: MODULUS_L3 }
}

#[test]
fn small_integer_round_trips() {
    for v in [0u64, 1, 2, 255, 1 << 40, u64::MAX] {
        let u = U256::from_u64(v);
        let s = u256_to_scalar(u).unwrap();
        assert_eq!(scalar_to_u256(s), u);
        assert_eq!(s, Scalar::from_u64(v));
    }
}

#[test]
fn largest_field_element_round_trips() {
    let below = U256 { l0: MODULUS_L0 - 1, ..modulus() };
    let s = u256_to_scalar(below).unwrap();
    assert_eq!(scalar_to_u256(s), below);
}

#[test]
fn high_limbs_round_trip() {
    let u = U256 { l0: 5, l1: u64::MAX, l2: 7, l3: MODULUS_L3 - 1 };
    assert_eq!(scalar_to_u256(u256_to_scalar(u).unwrap()), u);
}

#[test]
fn modulus_is_refused() {
    assert_eq!(u256_to_scalar(modulus()), Err(CoreError::ScalarConversionFailed));
}

#[test]
fn integers_above_modulus_are_refused() {
    let above = U256 { l0: 0, l1: 0, l2: 0, l3: MODULUS_L3 + 1 };
    assert_eq!(u256_to_scalar(above), Err(CoreError::ScalarConversionFailed));
    let max = U256 { l0: u64::MAX, l1: u64::MAX, l2: u64::MAX, l3: u64::MAX };
    assert_eq!(u256_to_scalar(max), Err(CoreError::ScalarConversionFailed));
    let just_above = U256 { l0: MODULUS_L0 + 1, ..modulus() };
    assert_eq!(u256_to_scalar(just_above), Err(CoreError::ScalarConversionFailed));
    // Refusal does not depend on how often it is asked.
    assert_eq!(u256_to_scalar(max), u256_to_scalar(max));
}

#[test]
fn words_are_encoded_as_limb_varints() {
    let bytes = postcard_serialize(&vec![U256::from_u64(1)]).unwrap();
    assert_eq!(bytes, vec![1, 1, 0, 0, 0]);
    let bytes = postcard_serialize(&vec![U256::from_u64(300), U256 { l0: 0, l1: 0, l2: 0, l3: 1 }])
        .unwrap();
    assert_eq!(bytes, vec![2, 0xAC, 0x02, 0, 0, 0, 0, 0, 0, 1]);
    assert_eq!(postcard_serialize(&vec![]).unwrap(), vec![0]);
}

#[test]
fn serialization_failures_map_to_calldata_error() {
    assert_eq!(map_calldata_ser_error("any"), CoreError::CalldataSerialization);
    assert_eq!(map_calldata_ser_error(7u8), CoreError::CalldataSerialization);
}
