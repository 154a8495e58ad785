use base_hsm::error::Direction;
use base_hsm::error::Function;
use base_hsm::error::HError;
use base_hsm::error::InterfaceError;
use base_hsm::text::decimal_text;
use base_hsm::text::parse_usize;
use base_hsm::text::same_text;

#[test]
fn session_error_messages() {
    assert_eq!(HError::Default("broken".to_owned()).message(), "broken");
    assert_eq!(
        HError::not_available(Function::EncapsulateKey).message(),
        "C_EncapsulateKey not available on library"
    );
    assert_eq!(
        HError::not_available(Function::DecapsulateKey).message(),
        "C_DecapsulateKey not available on library"
    );
    assert_eq!(HError::not_available(Function::Verify).message(), "C_Verify not available on library");
    assert_eq!(
        HError::not_available(Function::VerifyInit).message(),
        "C_VerifyInit not available on library"
    );
    assert_eq!(
        HError::not_available(Function::GenerateKeyPair).message(),
        "C_GenerateKeyPair not available on library"
    );
    assert_eq!(
        HError::call_failed(Function::GenerateKeyPair, 7).message(),
        "Failed generating PQC key pair. Return code: 7"
    );
    assert_eq!(
        HError::call_failed(Function::EncapsulateKey, 5).message(),
        "Failed ML-KEM encapsulation. Return code: 5"
    );
    assert_eq!(
        HError::call_failed(Function::DecapsulateKey, 112).message(),
        "Failed ML-KEM decapsulation. Return code: 112"
    );
    assert_eq!(
        HError::call_failed(Function::VerifyInit, 99).message(),
        "Failed to initialize signature verification. Return code: 99"
    );
    assert_eq!(
        HError::call_failed(Function::Verify, 48).message(),
        "Failed to verify signature. Return code: 48"
    );
    assert_eq!(
        HError::unsupported_parameter_set(9).message(),
        "Unsupported ML-KEM parameter set: 9"
    );
    assert_eq!(
        HError::unsupported_key(74, 12).message(),
        "Unsupported PQC key type/parameter set: 74/12"
    );
    let conversion = u8::try_from(256u32);
    match conversion {
        Err(e) => assert_eq!(HError::IntegerConversion.message(), format!("{e}")),
        Ok(_) => unreachable!(),
    }
}

#[test]
fn interface_error_messages() {
    assert_eq!(InterfaceError::Default("broken".to_owned()).message(), "broken");
    assert_eq!(InterfaceError::Session(HError::not_available(Function::Verify)).message(), "C_Verify not available on library");
    assert_eq!(
        InterfaceError::secret_key_exists().message(),
        "A secret key with this id already exists"
    );
    assert_eq!(
        InterfaceError::private_key_exists().message(),
        "A private key with this ID already exists"
    );
    assert_eq!(
        InterfaceError::public_key_exists().message(),
        "A public key with this ID and the '_pk' suffix already exists"
    );
    assert_eq!(
        InterfaceError::invalid_aes_key_length(192).message(),
        "Invalid key length: 192 bits, for and HSM AES key"
    );
    assert_eq!(
        InterfaceError::invalid_rsa_key_length(512).message(),
        "Invalid key length: 512 bits, for and HSM RSA key (valid values are 1024, 2048, 3072, 4096)"
    );
    assert_eq!(
        InterfaceError::job_not_submitted().message(),
        "failed to submit HSM batch worker job"
    );
    assert_eq!(
        InterfaceError::result_not_received().message(),
        "failed to receive HSM batch worker result"
    );
    assert_eq!(InterfaceError::result_missing().message(), "missing HSM batch worker result");
    assert_eq!(
        InterfaceError::worker_panicked(Direction::Encrypt).message(),
        "parallel HSM RSA encrypt worker panicked"
    );
    assert_eq!(
        InterfaceError::worker_panicked(Direction::Decrypt).message(),
        "parallel HSM RSA decrypt worker panicked"
    );
}

#[test]
fn errors_are_messages() {
    assert!(matches!(HError::not_available(Function::Verify), HError::Default(_)));
    assert!(matches!(HError::call_failed(Function::Verify, 5), HError::Default(_)));
    assert!(matches!(HError::unsupported_parameter_set(9), HError::Default(_)));
    assert!(matches!(HError::unsupported_key(74, 12), HError::Default(_)));
    for e in [
        InterfaceError::secret_key_exists(),
        InterfaceError::private_key_exists(),
        InterfaceError::public_key_exists(),
        InterfaceError::invalid_aes_key_length(1),
        InterfaceError::invalid_rsa_key_length(1),
        InterfaceError::job_not_submitted(),
        InterfaceError::result_not_received(),
        InterfaceError::result_missing(),
        InterfaceError::worker_panicked(Direction::Encrypt),
    ] {
        match &e {
            InterfaceError::Default(message) => assert_eq!(*message, e.message()),
            InterfaceError::Session(_) => panic!("it is an error of the HSM"),
        }
    }
}

#[test]
fn numbers_in_decimal() {
    assert_eq!(decimal_text(0), "0");
    assert_eq!(decimal_text(9), "9");
    assert_eq!(decimal_text(10), "10");
    assert_eq!(decimal_text(1234567890), "1234567890");
    assert_eq!(decimal_text(u64::MAX), "18446744073709551615");
}

#[test]
fn numbers_are_read_as_the_standard_library_reads_them() {
    let texts = [
        "", "+", "0", "7", "+7", "-7", "007", "12a", " 12", "12 ", "1024", "1025", "++1", "1_000",
        "18446744073709551615", "18446744073709551616", "99999999999999999999999", "\u{663}",
    ];
    for text in texts {
        assert_eq!(parse_usize(text), text.parse::<usize>().ok());
    }
}

#[test]
fn texts_are_told_apart() {
    assert!(same_text("on", "on"));
    assert!(same_text("", ""));
    assert!(!same_text("on", "ON"));
    assert!(!same_text("on", "o"));
}
