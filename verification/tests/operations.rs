use base_hsm::batch::request::CryptoAlgorithm;
use base_hsm::batch::request::EncryptedContent;
use base_hsm::cryptoki::Called;
use base_hsm::cryptoki::KeyPairHandles;
use base_hsm::cryptoki::SessionCall;
use base_hsm::cryptoki::SessionReply;
use base_hsm::error::HError;
use base_hsm::error::InterfaceError;
use base_hsm::error::InterfaceResult;
use base_hsm::hsm::create::AesKeySize;
use base_hsm::hsm::create::HsmKeyAlgorithm;
use base_hsm::hsm::create::HsmKeypairAlgorithm;
use base_hsm::hsm::create::KeyPairCall;
use base_hsm::hsm::create::KeyPairCreation;
use base_hsm::hsm::create::KeyPairReply;
use base_hsm::hsm::create::RsaKeySize;
use base_hsm::hsm::delete::DeletionCall;
use base_hsm::hsm::find::SearchCall;
use base_hsm::hsm::find::SearchReply;
use base_hsm::hsm::operation::OperationStep;
use base_hsm::hsm::operation::Request;
use base_hsm::hsm::BaseHsm;
use base_hsm::hsm::HsmCall;
use base_hsm::hsm::HsmReply;
use base_hsm::secret::SecretBytes;
use base_hsm::session::pqc::PqcKeypairAlgorithm;
use base_hsm::session::Session;
use base_hsm::step::Step;

fn goes_on<M, C, T>(step: Step<M, C, T>) -> (M, C) {
    match step {
        Step::Call(machine, call) => (machine, call),
        Step::Finish(_) => panic!("the operation is over"),
    }
}

fn ends<M, C, T>(step: Step<M, C, T>) -> T {
    match step {
        Step::Call(_, _) => panic!("the operation goes on"),
        Step::Finish(result) => result,
    }
}

fn failed(message: &str) -> InterfaceError {
    InterfaceError::Default(message.to_owned())
}

/// Runs an operation on the key `key` up to what is asked of the session.
fn on_key<'a, Q, T>(step: OperationStep<'a, Q, T>, key: &[u8]) -> OperationStep<'a, Q, T> {
    let (machine, call) = goes_on(step);
    assert!(matches!(call, HsmCall::GetSlot { slot_id: 5 }));
    let (machine, call) = goes_on(machine.resume::<T>(HsmReply::Slot(Ok(()))));
    assert!(matches!(call, HsmCall::OpenSession { read_write: true }));
    let (machine, call) = goes_on(machine.resume::<T>(HsmReply::Session(Ok(Session::new(1)))));
    match call {
        HsmCall::GetObjectHandle { id } => assert_eq!(id, key),
        _ => panic!("the key is looked up"),
    }
    machine.resume::<T>(HsmReply::Handle(Ok(33)))
}

fn asked<'a, Q, T>(
    step: OperationStep<'a, Q, T>,
    answer: InterfaceResult<T>,
) -> (Request<Q>, InterfaceResult<T>) {
    let (machine, call) = goes_on(step);
    let request = match call {
        HsmCall::Perform(request) => request,
        _ => panic!("the session is asked"),
    };
    let reply = HsmReply::Performed(answer);
    assert!(machine.accepts(&reply));
    (request, ends(machine.resume(reply)))
}

#[test]
fn export_gives_what_the_session_gives() {
    let step = on_key(BaseHsm.export::<u32>(5, b"key"), b"key");
    let (request, result) = asked(step, Ok(Some(8)));
    assert_eq!(request.handle, Some(33));
    assert!(matches!(result, Ok(Some(8))));
    let step = on_key(BaseHsm.export::<u32>(5, b"key"), b"key");
    assert!(matches!(asked(step, Ok(None)).1, Ok(None)));
}

#[test]
fn encryption_hands_everything_to_the_session() {
    let step = BaseHsm.encrypt(5, b"key", CryptoAlgorithm::AesGcm, b"data", b"aad");
    let step = on_key(step, b"key");
    let content = EncryptedContent { iv: Some(vec![1]), ciphertext: vec![2], tag: None };
    let (request, result) = asked(step, Ok(content));
    assert_eq!(request.handle, Some(33));
    assert!(request.request.algorithm == CryptoAlgorithm::AesGcm);
    assert_eq!(request.request.data, b"data");
    assert_eq!(request.request.additional_data, b"aad");
    match result {
        Ok(content) => assert_eq!(content.ciphertext, vec![2]),
        Err(_) => panic!("the session encrypted"),
    }
}

#[test]
fn decryption_hands_everything_to_the_session() {
    let step = BaseHsm.decrypt(5, b"key", CryptoAlgorithm::RsaPkcsV15, b"data", b"aad");
    let step = on_key(step, b"key");
    let (request, result) = asked(step, Ok(SecretBytes::new(vec![4, 2])));
    assert_eq!(request.handle, Some(33));
    assert!(request.request.algorithm == CryptoAlgorithm::RsaPkcsV15);
    assert_eq!(request.request.data, b"data");
    assert_eq!(request.request.additional_data, b"aad");
    match result {
        Ok(plaintext) => assert_eq!(plaintext.as_slice(), [4, 2]),
        Err(_) => panic!("the session decrypted"),
    }
}

#[test]
fn signing_and_verifying() {
    let step = on_key(BaseHsm.sign(5, b"key", "rsa", b"data"), b"key");
    let (request, result) = asked(step, Ok(vec![7]));
    assert_eq!((request.request.algorithm, request.request.data), ("rsa", b"data".as_slice()));
    assert!(matches!(result, Ok(signature) if signature == vec![7]));

    let step = BaseHsm.signature_verify(5, b"key", "rsa", b"data", b"signature");
    let step = on_key(step, b"key");
    let (request, result) = asked(step, Ok(false));
    assert_eq!(request.request.algorithm, "rsa");
    assert_eq!(request.request.data, b"data");
    assert_eq!(request.request.signature, b"signature");
    assert!(matches!(result, Ok(false)));
}

#[test]
fn what_is_known_of_a_key() {
    let step = on_key(BaseHsm.get_key_type::<u8>(5, b"key"), b"key");
    assert!(matches!(asked(step, Ok(Some(3))).1, Ok(Some(3))));
    let step = on_key(BaseHsm.get_key_metadata::<u8>(5, b"key"), b"key");
    assert!(matches!(asked(step, Ok(None)).1, Ok(None)));
}

#[test]
fn random_bytes_need_no_key() {
    let machine = goes_on(BaseHsm.generate_random(5, 16)).0;
    let machine = goes_on(machine.resume::<Vec<u8>>(HsmReply::Slot(Ok(())))).0;
    let step = machine.resume::<Vec<u8>>(HsmReply::Session(Ok(Session::new(1))));
    let (request, result) = asked(step, Ok(vec![1, 2]));
    assert_eq!(request.handle, None);
    assert_eq!(request.request.len, 16);
    assert!(matches!(result, Ok(bytes) if bytes == vec![1, 2]));

    let machine = goes_on(BaseHsm.seed_random(5, b"seed")).0;
    let machine = goes_on(machine.resume::<()>(HsmReply::Slot(Ok(())))).0;
    let step = machine.resume::<()>(HsmReply::Session(Ok(Session::new(1))));
    let (request, result) = asked(step, Ok(()));
    assert_eq!(request.handle, None);
    assert_eq!(request.request.seed, b"seed");
    assert!(result.is_ok());
}

#[test]
fn the_first_failure_ends_an_operation() {
    let start = || goes_on(BaseHsm.export::<u32>(5, b"key")).0;
    let step = start().resume::<Option<u32>>(HsmReply::Slot(Err(failed("slot"))));
    assert!(matches!(ends(step), Err(e) if e.message() == "slot"));
    let opening = || goes_on(start().resume::<Option<u32>>(HsmReply::Slot(Ok(())))).0;
    let step = opening().resume::<Option<u32>>(HsmReply::Session(Err(failed("session"))));
    assert!(matches!(ends(step), Err(e) if e.message() == "session"));
    let session = HsmReply::Session(Ok(Session::new(1)));
    let finding = goes_on(opening().resume::<Option<u32>>(session)).0;
    assert!(!finding.accepts(&HsmReply::<InterfaceResult<u32>>::Slot(Ok(()))));
    let step = finding.resume::<Option<u32>>(HsmReply::Handle(Err(failed("handle"))));
    assert!(matches!(ends(step), Err(e) if e.message() == "handle"));
    let step = on_key(BaseHsm.export::<u32>(5, b"key"), b"key");
    assert!(matches!(asked(step, Err(failed("export"))).1, Err(e) if e.message() == "export"));
}

#[test]
fn key_sizes() {
    assert!(matches!(AesKeySize::from_bits(128), Ok(AesKeySize::Aes128)));
    assert!(matches!(AesKeySize::from_bits(256), Ok(AesKeySize::Aes256)));
    assert!(matches!(
        AesKeySize::from_bits(192),
        Err(InterfaceError::Default(message)) if message == "Invalid key length: 192 bits, for and HSM AES key"
    ));
    assert!(matches!(RsaKeySize::from_bits(1024), Ok(RsaKeySize::Rsa1024)));
    assert!(matches!(RsaKeySize::from_bits(2048), Ok(RsaKeySize::Rsa2048)));
    assert!(matches!(RsaKeySize::from_bits(3072), Ok(RsaKeySize::Rsa3072)));
    assert!(matches!(RsaKeySize::from_bits(4096), Ok(RsaKeySize::Rsa4096)));
    assert!(matches!(
        RsaKeySize::from_bits(512),
        Err(InterfaceError::Default(message)) if message == "Invalid key length: 512 bits, for and HSM RSA key (valid values are 1024, 2048, 3072, 4096)"
    ));
}

#[test]
fn a_secret_key_is_created_under_a_free_identifier() {
    let step = BaseHsm.create_key(5, b"id", HsmKeyAlgorithm::AES, 256, true);
    let (machine, call) = goes_on(step);
    assert!(matches!(call, HsmCall::GetSlot { slot_id: 5 }));
    let (machine, call) = goes_on(machine.resume(HsmReply::Slot(Ok(()))));
    assert!(matches!(call, HsmCall::OpenSession { read_write: true }));
    let (machine, call) = goes_on(machine.resume(HsmReply::Session(Ok(Session::new(1)))));
    match call {
        HsmCall::GetObjectHandle { id } => assert_eq!(id, b"id"),
        _ => panic!("the identifier is looked up"),
    }
    let (machine, call) = goes_on(machine.resume(HsmReply::Handle(Err(failed("none")))));
    match call {
        HsmCall::Perform(request) => {
            assert_eq!(request.id, b"id");
            assert!(request.size == AesKeySize::Aes256);
            assert!(request.sensitive);
        }
        _ => panic!("the key is generated"),
    }
    assert!(machine.accepts(&HsmReply::Performed(Ok(9))));
    assert!(ends(machine.resume(HsmReply::Performed(Ok(9)))).is_ok());
    let step = machine.resume(HsmReply::Performed(Err(failed("generate"))));
    assert!(matches!(ends(step), Err(e) if e.message() == "generate"));
}

#[test]
fn a_taken_identifier_is_refused_whatever_the_length() {
    for bits in [128, 192] {
        let step = BaseHsm.create_key(5, b"id", HsmKeyAlgorithm::AES, bits, false);
        let machine = goes_on(step).0;
        let machine = goes_on(machine.resume(HsmReply::Slot(Ok(())))).0;
        let machine = goes_on(machine.resume(HsmReply::Session(Ok(Session::new(1))))).0;
        let step = machine.resume(HsmReply::Handle(Ok(3)));
        assert!(matches!(ends(step), Err(InterfaceError::Default(message)) if message == "A secret key with this id already exists"));
        let step = machine.resume(HsmReply::Handle(Err(failed("none"))));
        if bits == 192 {
            assert!(matches!(ends(step), Err(InterfaceError::Default(message)) if message == "Invalid key length: 192 bits, for and HSM AES key"));
        }
    }
}

fn checking<'a>(algorithm: HsmKeypairAlgorithm, bits: usize) -> KeyPairCreation<'a> {
    let step = BaseHsm.create_keypair(5, b"sk", b"pk", algorithm, bits, false);
    let (machine, call) = goes_on(step);
    assert!(matches!(call, HsmCall::GetSlot { slot_id: 5 }));
    let (machine, call) = goes_on(machine.resume(HsmReply::Slot(Ok(()))));
    assert!(matches!(call, HsmCall::OpenSession { read_write: true }));
    let (machine, call) = goes_on(machine.resume(HsmReply::Session(Ok(Session::new(6)))));
    match call {
        HsmCall::GetObjectHandle { id } => assert_eq!(id, b"sk"),
        _ => panic!("the private key is looked up"),
    }
    machine
}

#[test]
fn taken_identifiers_of_a_pair_are_refused() {
    for (algorithm, bits) in [(HsmKeypairAlgorithm::RSA, 1), (HsmKeypairAlgorithm::MlDsa44, 0)] {
        let machine = checking(algorithm, bits);
        let step = machine.resume(HsmReply::Handle(Ok(3)));
        assert!(matches!(ends(step), Err(InterfaceError::Default(message)) if message == "A private key with this ID already exists"));
        let (machine, call) = goes_on(machine.resume(HsmReply::Handle(Err(failed("none")))));
        match call {
            HsmCall::GetObjectHandle { id } => assert_eq!(id, b"pk"),
            _ => panic!("the public key is looked up"),
        }
        let step = machine.resume(HsmReply::Handle(Ok(3)));
        assert!(matches!(ends(step), Err(InterfaceError::Default(message)) if message == "A public key with this ID and the '_pk' suffix already exists"));
    }
}

#[test]
fn rsa_key_pairs() {
    let machine = checking(HsmKeypairAlgorithm::RSA, 3072);
    let machine = goes_on(machine.resume(HsmReply::Handle(Err(failed("none"))))).0;
    let (machine, call) = goes_on(machine.resume(HsmReply::Handle(Err(failed("none")))));
    match call {
        HsmCall::Perform(KeyPairCall::GenerateRsa { sk_id, pk_id, size, sensitive }) => {
            assert_eq!((sk_id, pk_id), (b"sk".as_slice(), b"pk".as_slice()));
            assert!(size == RsaKeySize::Rsa3072);
            assert!(!sensitive);
        }
        _ => panic!("the pair is generated"),
    }
    let reply = HsmReply::Performed(KeyPairReply::Rsa(Ok((1, 2))));
    assert!(machine.accepts(&reply));
    assert!(ends(machine.resume(reply)).is_ok());

    let machine = checking(HsmKeypairAlgorithm::RSA, 1000);
    let machine = goes_on(machine.resume(HsmReply::Handle(Err(failed("none"))))).0;
    let step = machine.resume(HsmReply::Handle(Err(failed("none"))));
    assert!(matches!(ends(step), Err(InterfaceError::Default(message)) if message == "Invalid key length: 1000 bits, for and HSM RSA key (valid values are 1024, 2048, 3072, 4096)"));
}

#[test]
fn post_quantum_key_pairs() {
    let algorithms = [
        (HsmKeypairAlgorithm::MlKem512, PqcKeypairAlgorithm::MlKem512),
        (HsmKeypairAlgorithm::MlKem768, PqcKeypairAlgorithm::MlKem768),
        (HsmKeypairAlgorithm::MlKem1024, PqcKeypairAlgorithm::MlKem1024),
        (HsmKeypairAlgorithm::MlDsa44, PqcKeypairAlgorithm::MlDsa44),
        (HsmKeypairAlgorithm::MlDsa65, PqcKeypairAlgorithm::MlDsa65),
        (HsmKeypairAlgorithm::MlDsa87, PqcKeypairAlgorithm::MlDsa87),
    ];
    assert!(HsmKeypairAlgorithm::RSA.pqc().is_none());
    for (algorithm, expected) in algorithms {
        assert!(algorithm.pqc() == Some(expected));
        let machine = checking(algorithm, 0);
        let machine = goes_on(machine.resume(HsmReply::Handle(Err(failed("none"))))).0;
        let (machine, call) = goes_on(machine.resume(HsmReply::Handle(Err(failed("none")))));
        match call {
            HsmCall::Perform(KeyPairCall::Pqc(SessionCall::GenerateKeyPair {
                session,
                mechanism,
                public_template,
                private_template,
            })) => {
                assert_eq!(session, 6);
                assert_eq!(mechanism, expected.mechanism());
                assert_eq!((public_template.len(), private_template.len()), (7, 9));
            }
            _ => panic!("the pair is generated"),
        }
        let handles = KeyPairHandles { public_key: 21, private_key: 22 };
        let reply = SessionReply::KeyPair(Called::Returned(0, handles));
        let machine = goes_on(machine.resume(HsmReply::Performed(KeyPairReply::Pqc(reply)))).0;
        let cached = || HsmReply::Performed(KeyPairReply::Pqc(SessionReply::Done(Ok(()))));
        assert!(machine.accepts(&cached()));
        let machine = goes_on(machine.resume(cached())).0;
        assert!(ends(machine.resume(cached())).is_ok());
    }
}

#[test]
fn a_failed_generation_is_an_error_of_the_session() {
    let machine = checking(HsmKeypairAlgorithm::MlKem512, 0);
    let machine = goes_on(machine.resume(HsmReply::Handle(Err(failed("none"))))).0;
    let machine = goes_on(machine.resume(HsmReply::Handle(Err(failed("none"))))).0;
    let reply = SessionReply::KeyPair(Called::NotAvailable);
    match ends(machine.resume(HsmReply::Performed(KeyPairReply::Pqc(reply)))) {
        Err(InterfaceError::Session(HError::Default(message))) => {
            assert_eq!(message, "C_GenerateKeyPair not available on library");
        }
        _ => panic!("the generation failed"),
    }
}

#[test]
fn an_object_is_destroyed_and_then_forgotten() {
    let machine = goes_on(BaseHsm.delete(5, b"id")).0;
    let machine = goes_on(machine.resume(HsmReply::Slot(Ok(())))).0;
    let machine = goes_on(machine.resume(HsmReply::Session(Ok(Session::new(1))))).0;
    let (machine, call) = goes_on(machine.resume(HsmReply::Handle(Ok(44))));
    assert!(matches!(call, HsmCall::Perform(DeletionCall::DestroyObject { handle: 44 })));
    let step = machine.resume(HsmReply::Performed(Err(failed("destroy"))));
    assert!(matches!(ends(step), Err(e) if e.message() == "destroy"));
    let (machine, call) = goes_on(machine.resume(HsmReply::Performed(Ok(()))));
    match call {
        HsmCall::Perform(DeletionCall::DeleteObjectHandle { id }) => assert_eq!(id, b"id"),
        _ => panic!("the handle is forgotten"),
    }
    assert!(machine.accepts(&HsmReply::Performed(Ok(()))));
    assert!(ends(machine.resume(HsmReply::Performed(Ok(())))).is_ok());
    let step = machine.resume(HsmReply::Performed(Err(failed("forget"))));
    assert!(matches!(ends(step), Err(e) if e.message() == "forget"));
}

#[test]
fn objects_that_have_an_identifier_are_found() {
    let mut step = BaseHsm.find(5, "any");
    let mut cached = vec![];
    let found = loop {
        match step {
            Step::Call(search, call) => {
                let reply = match call {
                    HsmCall::GetSlot { slot_id } => {
                        assert_eq!(slot_id, 5);
                        HsmReply::Slot(Ok(()))
                    }
                    HsmCall::OpenSession { read_write } => {
                        assert!(read_write);
                        HsmReply::Session(Ok(Session::new(1)))
                    }
                    HsmCall::GetObjectHandle { .. } => panic!("nothing is looked up"),
                    HsmCall::Perform(SearchCall::ListObjects { filter }) => {
                        assert_eq!(filter, "any");
                        HsmReply::Performed(SearchReply::Objects(Ok(vec![1, 2, 3, 4])))
                    }
                    HsmCall::Perform(SearchCall::GetObjectId { handle }) => {
                        HsmReply::Performed(SearchReply::ObjectId(match handle {
                            1 => Ok(Some(b"one".to_vec())),
                            2 => Ok(None),
                            3 => Err(failed("unreadable")),
                            _ => Ok(Some(b"four".to_vec())),
                        }))
                    }
                    HsmCall::Perform(SearchCall::CacheObjectHandle { id, handle }) => {
                        cached.push((id, handle));
                        HsmReply::Performed(SearchReply::Cached(Err(failed("full"))))
                    }
                };
                assert!(search.accepts(&reply));
                step = search.resume(reply);
            }
            Step::Finish(result) => break result,
        }
    };
    assert_eq!(cached, vec![(b"one".to_vec(), 1), (b"four".to_vec(), 4)]);
    match found {
        Ok(ids) => assert_eq!(ids, vec![b"one".to_vec(), b"four".to_vec()]),
        Err(_) => panic!("the search succeeded"),
    }
}

#[test]
fn a_search_fails_where_the_objects_cannot_be_listed() {
    let search = goes_on(BaseHsm.find(5, "any")).0;
    let search = goes_on(search.resume(HsmReply::Slot(Ok(())))).0;
    let search = goes_on(search.resume(HsmReply::Session(Ok(Session::new(1))))).0;
    let reply = HsmReply::Performed(SearchReply::Objects(Err(failed("list"))));
    assert!(matches!(ends(search.resume(reply)), Err(e) if e.message() == "list"));
    let search = goes_on(BaseHsm.find(5, "any")).0;
    let step = search.resume(HsmReply::Slot(Err(failed("slot"))));
    assert!(matches!(ends(step), Err(e) if e.message() == "slot"));
}

/// A slot whose look-ups give what was remembered.
struct Objects {
    handles: Vec<(Vec<u8>, u64)>,
    generated: usize,
}

impl Objects {
    fn new() -> Objects {
        Objects { handles: vec![], generated: 0 }
    }

    fn get(&self, id: &[u8]) -> InterfaceResult<u64> {
        match self.handles.iter().find(|(known, _)| known == id) {
            Some((_, handle)) => Ok(*handle),
            None => Err(failed("object not found")),
        }
    }

    fn insert(&mut self, id: &[u8], handle: u64) {
        self.remove(id);
        self.handles.push((id.to_vec(), handle));
    }

    fn remove(&mut self, id: &[u8]) {
        self.handles.retain(|(known, _)| known != id);
    }

    fn create_keypair(
        &mut self,
        sk_id: &[u8],
        pk_id: &[u8],
        algorithm: HsmKeypairAlgorithm,
        bits: usize,
    ) -> InterfaceResult<()> {
        let mut step = BaseHsm.create_keypair(5, sk_id, pk_id, algorithm, bits, true);
        loop {
            let (creation, call) = match step {
                Step::Call(creation, call) => (creation, call),
                Step::Finish(result) => return result,
            };
            let reply = match call {
                HsmCall::GetSlot { .. } => HsmReply::Slot(Ok(())),
                HsmCall::OpenSession { .. } => HsmReply::Session(Ok(Session::new(1))),
                HsmCall::GetObjectHandle { id } => HsmReply::Handle(self.get(id)),
                HsmCall::Perform(KeyPairCall::GenerateRsa { sk_id, pk_id, .. }) => {
                    self.generated += 1;
                    self.insert(sk_id, 22);
                    self.insert(pk_id, 21);
                    HsmReply::Performed(KeyPairReply::Rsa(Ok((22, 21))))
                }
                HsmCall::Perform(KeyPairCall::Pqc(SessionCall::CacheObjectHandle {
                    id,
                    handle,
                })) => {
                    self.insert(id, handle);
                    HsmReply::Performed(KeyPairReply::Pqc(SessionReply::Done(Ok(()))))
                }
                HsmCall::Perform(KeyPairCall::Pqc(_)) => {
                    self.generated += 1;
                    let handles = KeyPairHandles { public_key: 21, private_key: 22 };
                    let reply = SessionReply::KeyPair(Called::Returned(0, handles));
                    HsmReply::Performed(KeyPairReply::Pqc(reply))
                }
            };
            assert!(creation.accepts(&reply));
            step = creation.resume(reply);
        }
    }

    fn delete(&mut self, id: &[u8]) -> InterfaceResult<()> {
        let mut step = BaseHsm.delete(5, id);
        loop {
            let (deletion, call) = match step {
                Step::Call(deletion, call) => (deletion, call),
                Step::Finish(result) => return result,
            };
            let reply = match call {
                HsmCall::GetSlot { .. } => HsmReply::Slot(Ok(())),
                HsmCall::OpenSession { .. } => HsmReply::Session(Ok(Session::new(1))),
                HsmCall::GetObjectHandle { id } => HsmReply::Handle(self.get(id)),
                HsmCall::Perform(DeletionCall::DestroyObject { .. }) => HsmReply::Performed(Ok(())),
                HsmCall::Perform(DeletionCall::DeleteObjectHandle { id }) => {
                    self.remove(id);
                    HsmReply::Performed(Ok(()))
                }
            };
            assert!(deletion.accepts(&reply));
            step = deletion.resume(reply);
        }
    }

    /// Exports the handle itself.
    fn export(&self, id: &[u8]) -> InterfaceResult<Option<u64>> {
        let mut step = BaseHsm.export::<u64>(5, id);
        loop {
            let (operation, call) = match step {
                Step::Call(operation, call) => (operation, call),
                Step::Finish(result) => return result,
            };
            let reply = match call {
                HsmCall::GetSlot { .. } => HsmReply::Slot(Ok(())),
                HsmCall::OpenSession { .. } => HsmReply::Session(Ok(Session::new(1))),
                HsmCall::GetObjectHandle { id } => HsmReply::Handle(self.get(id)),
                HsmCall::Perform(request) => HsmReply::Performed(Ok(request.handle)),
            };
            assert!(operation.accepts(&reply));
            step = operation.resume(reply);
        }
    }
}

#[test]
fn a_created_key_pair_is_not_replaced() {
    for algorithm in [HsmKeypairAlgorithm::RSA, HsmKeypairAlgorithm::MlKem768] {
        let mut objects = Objects::new();
        assert!(objects.create_keypair(b"sk", b"pk", algorithm, 2048).is_ok());
        assert!(matches!(objects.export(b"sk"), Ok(Some(22))));
        assert!(matches!(objects.export(b"pk"), Ok(Some(21))));
        for (second, bits) in [(HsmKeypairAlgorithm::RSA, 7), (HsmKeypairAlgorithm::MlDsa44, 0)] {
            assert!(matches!(
                objects.create_keypair(b"sk", b"other", second, bits),
                Err(InterfaceError::Default(message))
                    if message == "A private key with this ID already exists"
            ));
            assert!(matches!(
                objects.create_keypair(b"other", b"pk", second, bits),
                Err(InterfaceError::Default(message))
                    if message == "A public key with this ID and the '_pk' suffix already exists"
            ));
        }
        assert_eq!(objects.generated, 1);
        assert!(matches!(objects.export(b"sk"), Ok(Some(22))));
    }
}

#[test]
fn a_deleted_object_is_not_exported() {
    let mut objects = Objects::new();
    objects.insert(b"kept", 3);
    objects.insert(b"gone", 4);
    assert!(objects.delete(b"gone").is_ok());
    assert!(matches!(objects.export(b"gone"), Err(e) if e.message() == "object not found"));
    assert!(matches!(objects.export(b"never"), Err(e) if e.message() == "object not found"));
    assert!(matches!(objects.export(b"kept"), Ok(Some(3))));
    assert!(matches!(objects.delete(b"gone"), Err(e) if e.message() == "object not found"));
}

#[test]
fn found_objects_are_looked_up() {
    let mut objects = Objects::new();
    let mut step = BaseHsm.find(5, "any");
    while let Step::Call(search, call) = step {
        let reply = match call {
            HsmCall::GetSlot { .. } => HsmReply::Slot(Ok(())),
            HsmCall::OpenSession { .. } => HsmReply::Session(Ok(Session::new(1))),
            HsmCall::GetObjectHandle { .. } => panic!("nothing is looked up"),
            HsmCall::Perform(SearchCall::ListObjects { .. }) => {
                HsmReply::Performed(SearchReply::Objects(Ok(vec![8, 9])))
            }
            HsmCall::Perform(SearchCall::GetObjectId { handle }) => {
                HsmReply::Performed(SearchReply::ObjectId(Ok(Some(vec![handle as u8]))))
            }
            HsmCall::Perform(SearchCall::CacheObjectHandle { id, handle }) => {
                objects.insert(&id, handle);
                HsmReply::Performed(SearchReply::Cached(Ok(())))
            }
        };
        step = search.resume(reply);
    }
    assert!(matches!(objects.export(&[8]), Ok(Some(8))));
    assert!(matches!(objects.export(&[9]), Ok(Some(9))));
}
