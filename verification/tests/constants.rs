use base_hsm::cryptoki;
use base_hsm::cryptoki::AttributeValue;

#[test]
fn constants_are_those_of_cryptoki() {
    assert_eq!(cryptoki::CK_FALSE, pkcs11_sys::CK_FALSE);
    assert_eq!(cryptoki::CK_TRUE, pkcs11_sys::CK_TRUE);
    assert_eq!(cryptoki::CKO_SECRET_KEY, pkcs11_sys::CKO_SECRET_KEY);
    assert_eq!(cryptoki::CKK_GENERIC_SECRET, pkcs11_sys::CKK_GENERIC_SECRET);
    assert_eq!(cryptoki::CKA_CLASS, pkcs11_sys::CKA_CLASS);
    assert_eq!(cryptoki::CKA_TOKEN, pkcs11_sys::CKA_TOKEN);
    assert_eq!(cryptoki::CKA_PRIVATE, pkcs11_sys::CKA_PRIVATE);
    assert_eq!(cryptoki::CKA_LABEL, pkcs11_sys::CKA_LABEL);
    assert_eq!(cryptoki::CKA_VALUE, pkcs11_sys::CKA_VALUE);
    assert_eq!(cryptoki::CKA_KEY_TYPE, pkcs11_sys::CKA_KEY_TYPE);
    assert_eq!(cryptoki::CKA_ID, pkcs11_sys::CKA_ID);
    assert_eq!(cryptoki::CKA_SENSITIVE, pkcs11_sys::CKA_SENSITIVE);
    assert_eq!(cryptoki::CKA_WRAP, pkcs11_sys::CKA_WRAP);
    assert_eq!(cryptoki::CKA_UNWRAP, pkcs11_sys::CKA_UNWRAP);
    assert_eq!(cryptoki::CKA_SIGN, pkcs11_sys::CKA_SIGN);
    assert_eq!(cryptoki::CKA_VERIFY, pkcs11_sys::CKA_VERIFY);
    assert_eq!(cryptoki::CKA_VALUE_LEN, pkcs11_sys::CKA_VALUE_LEN);
    assert_eq!(cryptoki::CKA_EXTRACTABLE, pkcs11_sys::CKA_EXTRACTABLE);
    assert_eq!(cryptoki::CKR_OK, pkcs11_sys::CKR_OK);
    assert_eq!(cryptoki::CKR_SIGNATURE_INVALID, pkcs11_sys::CKR_SIGNATURE_INVALID);
    assert_eq!(cryptoki::CKR_SIGNATURE_LEN_RANGE, pkcs11_sys::CKR_SIGNATURE_LEN_RANGE);
}

#[test]
fn post_quantum_constants() {
    assert_eq!(cryptoki::CKK_ML_KEM, 0x49);
    assert_eq!(cryptoki::CKK_ML_DSA, 0x4a);
    assert_eq!(cryptoki::CKA_PARAMETER_SET, 0x61d);
    assert_eq!(cryptoki::CKA_ML_DSA_PARAMS, 0x638);
    assert_eq!(cryptoki::CKM_ML_KEM_KEY_PAIR_GEN, 0x0f);
    assert_eq!(cryptoki::CKM_ML_KEM, 0x17);
    assert_eq!(cryptoki::CKM_ML_DSA_KEY_PAIR_GEN, 0x1c);
    assert_eq!(cryptoki::CKM_ML_DSA, 0x1d);
}

#[test]
fn value_lengths() {
    let ulong = core::mem::size_of::<pkcs11_sys::CK_ULONG>() as pkcs11_sys::CK_ULONG;
    let bool = core::mem::size_of::<pkcs11_sys::CK_BBOOL>() as pkcs11_sys::CK_ULONG;
    assert_eq!(AttributeValue::Ulong(7).value_len(), ulong);
    assert_eq!(AttributeValue::Bool(1).value_len(), bool);
    assert_eq!(AttributeValue::Bytes(&[1, 2, 3]).value_len(), 3);
    assert_eq!(AttributeValue::Bytes(&[]).value_len(), 0);
}
