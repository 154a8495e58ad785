use base_hsm::cryptoki::Attribute;
use base_hsm::cryptoki::AttributeValue;
use base_hsm::cryptoki::Called;
use base_hsm::cryptoki::Encapsulated;
use base_hsm::cryptoki::KeyPairHandles;
use base_hsm::cryptoki::SessionCall;
use base_hsm::cryptoki::SessionReply;
use base_hsm::error::Function;
use base_hsm::error::HError;
use base_hsm::secret::SecretBytes;
use base_hsm::session::hsm_call;
use base_hsm::session::mldsa::signature_verdict;
use base_hsm::session::mlkem::pqc_parameter_set;
use base_hsm::session::pqc::mlkem_ciphertext_len;
use base_hsm::session::pqc::pqc_key_length_in_bits;
use base_hsm::session::pqc::PqcKeypairAlgorithm;
use base_hsm::session::Session;
use base_hsm::step::Step;

fn called<M, C, T>(step: Step<M, C, T>) -> (M, C) {
    match step {
        Step::Call(machine, call) => (machine, call),
        Step::Finish(_) => panic!("the operation is over"),
    }
}

fn finished<M, C, T>(step: Step<M, C, T>) -> T {
    match step {
        Step::Call(_, _) => panic!("the operation goes on"),
        Step::Finish(result) => result,
    }
}

fn plain(template: &[Attribute]) -> Vec<(u64, Vec<u8>)> {
    template
        .iter()
        .map(|attribute| {
            let value = match attribute.value {
                AttributeValue::Ulong(n) => n.to_le_bytes().to_vec(),
                AttributeValue::Bool(b) => vec![b],
                AttributeValue::Bytes(bytes) => bytes.to_vec(),
            };
            (attribute.type_, value)
        })
        .collect()
}

fn ulong(n: u64) -> Vec<u8> {
    n.to_le_bytes().to_vec()
}

#[test]
fn algorithms_and_their_numbers() {
    let algorithms = [
        (PqcKeypairAlgorithm::MlKem512, true, 1, 512),
        (PqcKeypairAlgorithm::MlKem768, true, 2, 768),
        (PqcKeypairAlgorithm::MlKem1024, true, 3, 1024),
        (PqcKeypairAlgorithm::MlDsa44, false, 1, 44),
        (PqcKeypairAlgorithm::MlDsa65, false, 2, 65),
        (PqcKeypairAlgorithm::MlDsa87, false, 3, 87),
    ];
    for (algorithm, kem, set, bits) in algorithms {
        assert_eq!(algorithm.is_mlkem(), kem);
        assert_eq!(algorithm.mechanism(), if kem { 0x0f } else { 0x1c });
        assert_eq!(algorithm.key_type(), if kem { 0x49 } else { 0x4a });
        assert_eq!(algorithm.param_attr(), if kem { 0x61d } else { 0x638 });
        assert_eq!(algorithm.parameter_set(), set);
        match pqc_key_length_in_bits(algorithm.key_type(), algorithm.parameter_set()) {
            Ok(length) => assert_eq!(length, bits),
            Err(_) => panic!("every algorithm has a length"),
        }
    }
}

#[test]
fn keys_of_no_algorithm_have_no_length() {
    for (key_type, set) in [(0x49, 0), (0x49, 4), (0x4a, 4), (0x48, 1)] {
        match pqc_key_length_in_bits(key_type, set) {
            Err(e) => assert_eq!(
                e.message(),
                format!("Unsupported PQC key type/parameter set: {key_type}/{set}")
            ),
            Ok(_) => panic!("there is no such algorithm"),
        }
    }
}

#[test]
fn ciphertext_lengths() {
    assert!(matches!(mlkem_ciphertext_len(1), Ok(768)));
    assert!(matches!(mlkem_ciphertext_len(2), Ok(1088)));
    assert!(matches!(mlkem_ciphertext_len(3), Ok(1568)));
    assert!(matches!(
        mlkem_ciphertext_len(4),
        Err(HError::Default(message)) if message == "Unsupported ML-KEM parameter set: 4"
    ));
}

#[test]
fn calls_and_what_they_amount_to() {
    assert!(matches!(hsm_call(Function::VerifyInit, Called::Returned(0, 8)), Ok(8)));
    assert!(matches!(
        hsm_call(Function::VerifyInit, Called::Returned(5, 8)),
        Err(HError::Default(message)) if message == "Failed to initialize signature verification. Return code: 5"
    ));
    assert!(matches!(
        hsm_call::<u8>(Function::VerifyInit, Called::NotAvailable),
        Err(HError::Default(message)) if message == "C_VerifyInit not available on library"
    ));
}

#[test]
fn mlkem_key_pair_is_generated_and_cached() {
    let session = Session::new(11);
    let step =
        session.generate_pqc_key_pair(b"sk", b"pk", PqcKeypairAlgorithm::MlKem768, true);
    let (machine, call) = called(step);
    match call {
        SessionCall::GenerateKeyPair { session, mechanism, public_template, private_template } => {
            assert_eq!(session, 11);
            assert_eq!(mechanism, 0x0f);
            assert_eq!(
                plain(&public_template),
                vec![
                    (pkcs11_sys::CKA_KEY_TYPE, ulong(0x49)),
                    (pkcs11_sys::CKA_TOKEN, vec![1]),
                    (pkcs11_sys::CKA_PRIVATE, vec![0]),
                    (pkcs11_sys::CKA_LABEL, b"pk".to_vec()),
                    (pkcs11_sys::CKA_ID, b"pk".to_vec()),
                    (0x61d, ulong(2)),
                    (pkcs11_sys::CKA_WRAP, vec![1]),
                ]
            );
            assert_eq!(
                plain(&private_template),
                vec![
                    (pkcs11_sys::CKA_KEY_TYPE, ulong(0x49)),
                    (pkcs11_sys::CKA_TOKEN, vec![1]),
                    (pkcs11_sys::CKA_PRIVATE, vec![1]),
                    (pkcs11_sys::CKA_LABEL, b"sk".to_vec()),
                    (pkcs11_sys::CKA_ID, b"sk".to_vec()),
                    (pkcs11_sys::CKA_SENSITIVE, vec![1]),
                    (pkcs11_sys::CKA_EXTRACTABLE, vec![0]),
                    (0x61d, ulong(2)),
                    (pkcs11_sys::CKA_UNWRAP, vec![1]),
                ]
            );
        }
        _ => panic!("a key pair is generated first"),
    }
    let handles = KeyPairHandles { public_key: 21, private_key: 22 };
    let reply = SessionReply::KeyPair(Called::Returned(0, handles));
    assert!(machine.accepts(&reply));
    assert!(!machine.accepts(&SessionReply::Done(Ok(()))));
    let (machine, call) = called(machine.resume(reply));
    match call {
        SessionCall::CacheObjectHandle { id, handle } => {
            assert_eq!(id, b"sk");
            assert_eq!(handle, 22);
        }
        _ => panic!("the private key is cached"),
    }
    let (machine, call) = called(machine.resume(SessionReply::Done(Ok(()))));
    match call {
        SessionCall::CacheObjectHandle { id, handle } => {
            assert_eq!(id, b"pk");
            assert_eq!(handle, 21);
        }
        _ => panic!("the public key is cached"),
    }
    match finished(machine.resume(SessionReply::Done(Ok(())))) {
        Ok(pair) => assert_eq!(pair, (22, 21)),
        Err(_) => panic!("every call succeeded"),
    }
}

#[test]
fn mldsa_key_pair_signs_and_verifies() {
    let session = Session::new(11);
    let step =
        session.generate_pqc_key_pair(b"s", b"p", PqcKeypairAlgorithm::MlDsa87, false);
    match called(step).1 {
        SessionCall::GenerateKeyPair { mechanism, public_template, private_template, .. } => {
            assert_eq!(mechanism, 0x1c);
            let public_template = plain(&public_template);
            let private_template = plain(&private_template);
            assert_eq!(public_template.len(), 7);
            assert_eq!(public_template[5], (0x638, ulong(3)));
            assert_eq!(public_template[6], (pkcs11_sys::CKA_VERIFY, vec![1]));
            assert_eq!(private_template.len(), 9);
            assert_eq!(private_template[5], (pkcs11_sys::CKA_SENSITIVE, vec![0]));
            assert_eq!(private_template[6], (pkcs11_sys::CKA_EXTRACTABLE, vec![1]));
            assert_eq!(private_template[7], (0x638, ulong(3)));
            assert_eq!(private_template[8], (pkcs11_sys::CKA_SIGN, vec![1]));
        }
        _ => panic!("a key pair is generated first"),
    }
}

#[test]
fn refused_generation_caches_nothing() {
    let session = Session::new(1);
    let start = || session.generate_pqc_key_pair(b"s", b"p", PqcKeypairAlgorithm::MlKem512, true);
    let handles = KeyPairHandles { public_key: 21, private_key: 22 };
    let refused = called(start()).0.resume(SessionReply::KeyPair(Called::Returned(7, handles)));
    assert!(matches!(
        finished(refused),
        Err(HError::Default(message)) if message == "Failed generating PQC key pair. Return code: 7"
    ));
    let missing = called(start()).0.resume(SessionReply::KeyPair(Called::NotAvailable));
    assert!(matches!(
        finished(missing),
        Err(HError::Default(message)) if message == "C_GenerateKeyPair not available on library"
    ));
}

#[test]
fn a_cache_that_fails_ends_the_generation() {
    let session = Session::new(1);
    let step = session.generate_pqc_key_pair(b"s", b"p", PqcKeypairAlgorithm::MlKem512, true);
    let handles = KeyPairHandles { public_key: 21, private_key: 22 };
    let machine =
        called(called(step).0.resume(SessionReply::KeyPair(Called::Returned(0, handles)))).0;
    let full = machine.resume(SessionReply::Done(Err(HError::Default("full".to_owned()))));
    match finished(full) {
        Err(e) => assert_eq!(e.message(), "full"),
        Ok(_) => panic!("the cache failed"),
    }
    let machine = called(machine.resume(SessionReply::Done(Ok(())))).0;
    let full = machine.resume(SessionReply::Done(Err(HError::Default("full".to_owned()))));
    assert!(finished(full).is_err());
}

#[test]
fn secret_template() {
    let template = Session::mlkem_secret_template(4, 0x10, 32, 0, 1);
    assert_eq!(
        plain(&template),
        vec![
            (pkcs11_sys::CKA_CLASS, ulong(pkcs11_sys::CKO_SECRET_KEY)),
            (pkcs11_sys::CKA_KEY_TYPE, ulong(pkcs11_sys::CKK_GENERIC_SECRET)),
            (pkcs11_sys::CKA_TOKEN, vec![0]),
            (pkcs11_sys::CKA_PRIVATE, vec![0]),
            (pkcs11_sys::CKA_SENSITIVE, vec![0]),
            (pkcs11_sys::CKA_EXTRACTABLE, vec![1]),
            (pkcs11_sys::CKA_VALUE_LEN, ulong(32)),
        ]
    );
}

#[test]
fn encapsulation_reads_the_secret_and_destroys_it() {
    let session = Session::new(3);
    let (machine, call) = called(session.mlkem_encapsulate(40));
    match call {
        SessionCall::ReadUlong { session, object, attribute } => {
            assert_eq!((session, object, attribute), (3, 40, 0x61d));
        }
        _ => panic!("the parameter set is read first"),
    }
    let (machine, call) = called(machine.resume(SessionReply::Ulong(Ok(Some(2)))));
    let mut buffer = match call {
        SessionCall::EncapsulateKey { session, mechanism, public_key, secret_template, buffer } => {
            assert_eq!((session, mechanism, public_key), (3, 0x17, 40));
            assert_eq!(secret_template.len(), 7);
            assert_eq!(buffer, vec![0; 1088]);
            buffer
        }
        _ => panic!("the secret is encapsulated"),
    };
    buffer[0] = 9;
    buffer[1] = 8;
    let output = Encapsulated { ciphertext: buffer, ciphertext_len: 2, secret: 77 };
    let reply = SessionReply::Encapsulated(Called::Returned(0, output));
    assert!(machine.accepts(&reply));
    let (machine, call) = called(machine.resume(reply));
    match call {
        SessionCall::ReadLen { session, object, attribute } => {
            assert_eq!((session, object, attribute), (3, 77, pkcs11_sys::CKA_VALUE));
        }
        _ => panic!("the length of the secret is read"),
    }
    let (machine, call) = called(machine.resume(SessionReply::Ulong(Ok(Some(4)))));
    match call {
        SessionCall::ReadBytes { session, object, attribute, buffer } => {
            assert_eq!((session, object, attribute), (3, 77, pkcs11_sys::CKA_VALUE));
            assert_eq!(buffer, vec![0; 4]);
        }
        _ => panic!("the secret is read"),
    }
    let (machine, call) = called(machine.resume(SessionReply::Bytes(Ok(Some(vec![5, 6, 7, 8])))));
    match call {
        SessionCall::DestroyObject { session, object } => assert_eq!((session, object), (3, 77)),
        _ => panic!("the secret is destroyed"),
    }
    match finished(machine.resume(SessionReply::Done(Ok(())))) {
        Ok((secret, ciphertext)) => {
            assert_eq!(secret.as_slice(), [5, 6, 7, 8]);
            assert_eq!(ciphertext, vec![9, 8]);
        }
        Err(_) => panic!("every call succeeded"),
    }
}

#[test]
fn a_ciphertext_is_no_longer_than_the_buffer() {
    let machine = called(Session::new(3).mlkem_encapsulate(40)).0;
    let machine = called(machine.resume(SessionReply::Ulong(Ok(Some(1))))).0;
    let output = Encapsulated { ciphertext: vec![1; 768], ciphertext_len: 5000, secret: 77 };
    let machine =
        called(machine.resume(SessionReply::Encapsulated(Called::Returned(0, output)))).0;
    let machine = called(machine.resume(SessionReply::Ulong(Ok(Some(1))))).0;
    let machine = called(machine.resume(SessionReply::Bytes(Ok(Some(vec![5]))))).0;
    match finished(machine.resume(SessionReply::Done(Ok(())))) {
        Ok((_, ciphertext)) => assert_eq!(ciphertext, vec![1; 768]),
        Err(_) => panic!("every call succeeded"),
    }
}

#[test]
fn encapsulation_fails_where_a_call_fails() {
    let start = || called(Session::new(3).mlkem_encapsulate(40)).0;
    assert!(matches!(
        finished(start().resume(SessionReply::Ulong(Ok(None)))),
        Err(HError::Default(message)) if message == "PQC key not found"
    ));
    assert!(matches!(
        finished(start().resume(SessionReply::Ulong(Ok(Some(4))))),
        Err(HError::Default(message)) if message == "Unsupported ML-KEM parameter set: 4"
    ));
    let error = HError::Default("read".to_owned());
    match finished(start().resume(SessionReply::Ulong(Err(error)))) {
        Err(e) => assert_eq!(e.message(), "read"),
        Ok(_) => panic!("the read failed"),
    }
    let machine = called(start().resume(SessionReply::Ulong(Ok(Some(3))))).0;
    assert!(matches!(
        finished(machine.resume(SessionReply::Encapsulated(Called::NotAvailable))),
        Err(HError::Default(message)) if message == "C_EncapsulateKey not available on library"
    ));
    let machine = called(start().resume(SessionReply::Ulong(Ok(Some(3))))).0;
    let output = Encapsulated { ciphertext: vec![0; 1568], ciphertext_len: 0, secret: 0 };
    assert!(matches!(
        finished(machine.resume(SessionReply::Encapsulated(Called::Returned(6, output)))),
        Err(HError::Default(message)) if message == "Failed ML-KEM encapsulation. Return code: 6"
    ));
}

#[test]
fn an_encapsulated_secret_that_stays_is_not_given_out() {
    let machine = called(Session::new(3).mlkem_encapsulate(40)).0;
    let machine = called(machine.resume(SessionReply::Ulong(Ok(Some(1))))).0;
    let output = Encapsulated { ciphertext: vec![1; 768], ciphertext_len: 768, secret: 77 };
    let machine =
        called(machine.resume(SessionReply::Encapsulated(Called::Returned(0, output)))).0;
    let machine = called(machine.resume(SessionReply::Ulong(Ok(Some(1))))).0;
    let machine = called(machine.resume(SessionReply::Bytes(Ok(Some(vec![5]))))).0;
    let reply = SessionReply::Done(Err(HError::Default("stays".to_owned())));
    match finished(machine.resume(reply)) {
        Err(e) => assert_eq!(e.message(), "stays"),
        Ok(_) => panic!("the object was not destroyed"),
    }
}

#[test]
fn decapsulation_reads_the_secret_and_destroys_it() {
    let session = Session::new(3);
    let (machine, call) = called(session.mlkem_decapsulate(41, &[1, 2, 3]));
    match call {
        SessionCall::DecapsulateKey {
            session,
            mechanism,
            private_key,
            secret_template,
            ciphertext,
        } => {
            assert_eq!((session, mechanism, private_key), (3, 0x17, 41));
            assert_eq!(secret_template.len(), 7);
            assert_eq!(ciphertext, [1, 2, 3]);
        }
        _ => panic!("the secret is decapsulated"),
    }
    let machine = called(machine.resume(SessionReply::Decapsulated(Called::Returned(0, 78)))).0;
    let machine = called(machine.resume(SessionReply::Ulong(Ok(Some(2))))).0;
    let (machine, call) = called(machine.resume(SessionReply::Bytes(Ok(Some(vec![3, 4])))));
    match call {
        SessionCall::DestroyObject { session, object } => assert_eq!((session, object), (3, 78)),
        _ => panic!("the secret is destroyed"),
    }
    match finished(machine.resume(SessionReply::Done(Ok(())))) {
        Ok(secret) => assert_eq!(secret.as_slice(), [3, 4]),
        Err(_) => panic!("every call succeeded"),
    }
}

#[test]
fn decapsulation_fails_where_a_call_fails() {
    let ciphertext = [1, 2, 3];
    let start = || called(Session::new(3).mlkem_decapsulate(41, &ciphertext)).0;
    assert!(matches!(
        finished(start().resume(SessionReply::Decapsulated(Called::NotAvailable))),
        Err(HError::Default(message)) if message == "C_DecapsulateKey not available on library"
    ));
    assert!(matches!(
        finished(start().resume(SessionReply::Decapsulated(Called::Returned(112, 0)))),
        Err(HError::Default(message)) if message == "Failed ML-KEM decapsulation. Return code: 112"
    ));
    let machine = called(start().resume(SessionReply::Decapsulated(Called::Returned(0, 78)))).0;
    assert!(matches!(
        finished(machine.resume(SessionReply::Ulong(Ok(None)))),
        Err(HError::Default(message)) if message == "ML-KEM secret handle not found"
    ));
    let machine = called(start().resume(SessionReply::Decapsulated(Called::Returned(0, 78)))).0;
    let machine = called(machine.resume(SessionReply::Ulong(Ok(Some(2))))).0;
    assert!(matches!(
        finished(machine.resume(SessionReply::Bytes(Ok(None)))),
        Err(HError::Default(message)) if message == "ML-KEM secret handle not found"
    ));
}

#[test]
fn a_length_that_no_buffer_can_have_is_not_accepted() {
    let machine = called(Session::new(3).read_secret_value(9)).0;
    let unavailable = SessionReply::Ulong(Ok(Some(pkcs11_sys::CK_UNAVAILABLE_INFORMATION)));
    assert!(!machine.accepts(&unavailable));
    assert!(machine.accepts(&SessionReply::Ulong(Ok(Some(32)))));
    assert!(machine.accepts(&SessionReply::Ulong(Ok(None))));
    assert!(!machine.accepts(&SessionReply::Bytes(Ok(None))));
}

#[test]
fn a_secret_is_as_long_as_its_object_says() {
    let machine = called(Session::new(3).read_secret_value(9)).0;
    let (machine, _) = called(machine.resume(SessionReply::Ulong(Ok(Some(32)))));
    assert!(!machine.accepts(&SessionReply::Bytes(Ok(Some(vec![1])))));
    assert!(!machine.accepts(&SessionReply::Bytes(Ok(Some(vec![1; 33])))));
    let whole = SessionReply::Bytes(Ok(Some(vec![1; 32])));
    assert!(machine.accepts(&whole));
    match finished(machine.resume(whole)) {
        Ok(value) => assert_eq!(value, vec![1; 32]),
        Err(_) => panic!("both reads succeeded"),
    }
}

#[test]
fn a_lent_buffer_comes_back_with_its_length() {
    let machine = called(Session::new(3).mlkem_encapsulate(40)).0;
    let machine = called(machine.resume(SessionReply::Ulong(Ok(Some(1))))).0;
    for (len, accepted) in [(768, true), (2000, false), (0, false)] {
        let output = Encapsulated { ciphertext: vec![1; len], ciphertext_len: 1, secret: 77 };
        let reply = SessionReply::Encapsulated(Called::Returned(0, output));
        assert_eq!(machine.accepts(&reply), accepted);
    }
    assert!(machine.accepts(&SessionReply::Encapsulated(Called::NotAvailable)));
}

#[test]
fn parameter_set_of_a_key() {
    match Session::new(3).read_pqc_parameter_set(9, 0x638) {
        SessionCall::ReadUlong { session, object, attribute } => {
            assert_eq!((session, object, attribute), (3, 9, 0x638));
        }
        _ => panic!("an attribute is read"),
    }
    assert!(matches!(pqc_parameter_set(Ok(Some(3))), Ok(3)));
    assert!(matches!(pqc_parameter_set(Ok(None)), Err(HError::Default(message)) if message == "PQC key not found"));
}

#[test]
fn verification_is_set_up_and_made() {
    let session = Session::new(3);
    let (machine, call) = called(session.mldsa_verify(50, b"data", b"signature"));
    match call {
        SessionCall::VerifyInit { session, mechanism, public_key } => {
            assert_eq!((session, mechanism, public_key), (3, 0x1d, 50));
        }
        _ => panic!("the verification is set up first"),
    }
    let (machine, call) = called(machine.resume(SessionReply::Status(Called::Returned(0, ()))));
    match call {
        SessionCall::Verify { session, data, signature } => {
            assert_eq!(session, 3);
            assert_eq!(data, b"data");
            assert_eq!(signature, b"signature");
        }
        _ => panic!("the signature is verified"),
    }
    assert!(matches!(
        finished(machine.resume(SessionReply::Status(Called::Returned(0, ())))),
        Ok(true)
    ));
}

#[test]
fn verification_that_is_not_set_up_is_not_made() {
    let machine = called(Session::new(3).mldsa_verify(50, b"data", b"signature")).0;
    assert!(matches!(
        finished(machine.resume(SessionReply::Status(Called::Returned(99, ())))),
        Err(HError::Default(message)) if message == "Failed to initialize signature verification. Return code: 99"
    ));
}

#[test]
fn verdicts() {
    assert!(matches!(signature_verdict(Called::Returned(0, ())), Ok(true)));
    let invalid = Called::Returned(pkcs11_sys::CKR_SIGNATURE_INVALID, ());
    assert!(matches!(signature_verdict(invalid), Ok(false)));
    let wrong_len = Called::Returned(pkcs11_sys::CKR_SIGNATURE_LEN_RANGE, ());
    assert!(matches!(signature_verdict(wrong_len), Ok(false)));
    assert!(matches!(
        signature_verdict(Called::Returned(48, ())),
        Err(HError::Default(message)) if message == "Failed to verify signature. Return code: 48"
    ));
    assert!(matches!(
        signature_verdict(Called::NotAvailable),
        Err(HError::Default(message)) if message == "C_Verify not available on library"
    ));
}

#[test]
fn secret_bytes_are_kept() {
    let secret = SecretBytes::new(vec![1, 2, 3]);
    assert_eq!(secret.as_slice(), [1, 2, 3]);
}
