//! The errors, and the message of each.

use pkcs11_sys::CK_KEY_TYPE;
use pkcs11_sys::CK_RV;
use pkcs11_sys::CK_ULONG;
use vstd::prelude::*;

use crate::text::decimal;
use crate::text::decimal_text;

verus! {

/// A function of the PKCS#11 library.
#[derive(Debug, Clone, Copy, PartialEq, Eq, Structural)]
pub enum Function {
    GenerateKeyPair,
    EncapsulateKey,
    DecapsulateKey,
    VerifyInit,
    Verify,
}

/// An error of a session. `S` is how a message is held.
#[derive(Debug)]
pub enum HError<S = String> {
    /// What went wrong, in words.
    Default(S),
    /// A number does not fit in the type that has to hold it.
    IntegerConversion,
}

/// An [`HError`] as contracts speak of it.
pub type HErrorView = HError<Seq<char>>;

/// The result of an operation of a session.
pub type HResult<T> = Result<T, HError>;

/// The result of an operation of a session, as contracts speak of it.
pub type HResultView<T> = Result<T, HErrorView>;

impl View for HError<String> {
    type V = HError<Seq<char>>;

    open spec fn view(&self) -> Self::V {
        match *self {
            HError::Default(message) => HError::Default(message@),
            HError::IntegerConversion => HError::IntegerConversion,
        }
    }
}

/// A result whose error is taken as contracts speak of it.
pub open spec fn viewed<T, E: View>(result: Result<T, E>) -> Result<T, E::V> {
    match result {
        Ok(value) => Ok(value),
        Err(e) => Err(e@),
    }
}

impl Function {
    /// The name of the function.
    pub open spec fn name_text(self) -> Seq<char> {
        match self {
            Function::GenerateKeyPair => "C_GenerateKeyPair"@,
            Function::EncapsulateKey => "C_EncapsulateKey"@,
            Function::DecapsulateKey => "C_DecapsulateKey"@,
            Function::VerifyInit => "C_VerifyInit"@,
            Function::Verify => "C_Verify"@,
        }
    }

    /// What failed when the function did.
    pub open spec fn failure_text(self) -> Seq<char> {
        match self {
            Function::GenerateKeyPair => "Failed generating PQC key pair"@,
            Function::EncapsulateKey => "Failed ML-KEM encapsulation"@,
            Function::DecapsulateKey => "Failed ML-KEM decapsulation"@,
            Function::VerifyInit => "Failed to initialize signature verification"@,
            Function::Verify => "Failed to verify signature"@,
        }
    }

    /// The name of the function.
    pub fn name(self) -> (text: &'static str)
        ensures
            text@ == self.name_text(),
    {
        match self {
            Function::GenerateKeyPair => "C_GenerateKeyPair",
            Function::EncapsulateKey => "C_EncapsulateKey",
            Function::DecapsulateKey => "C_DecapsulateKey",
            Function::VerifyInit => "C_VerifyInit",
            Function::Verify => "C_Verify",
        }
    }

    /// What failed when the function did.
    pub fn failure(self) -> (text: &'static str)
        ensures
            text@ == self.failure_text(),
    {
        match self {
            Function::GenerateKeyPair => "Failed generating PQC key pair",
            Function::EncapsulateKey => "Failed ML-KEM encapsulation",
            Function::DecapsulateKey => "Failed ML-KEM decapsulation",
            Function::VerifyInit => "Failed to initialize signature verification",
            Function::Verify => "Failed to verify signature",
        }
    }
}

/// The message where the library does not have a function.
pub open spec fn not_available_text(function: Function) -> Seq<char> {
    function.name_text() + " not available on library"@
}

/// The message where a function returned something else than `CKR_OK`.
pub open spec fn call_failed_text(function: Function, rv: CK_RV) -> Seq<char> {
    function.failure_text() + ". Return code: "@ + decimal(rv as nat)
}

/// The message where no ML-KEM parameter set has a number.
pub open spec fn unsupported_parameter_set_text(parameter_set: CK_ULONG) -> Seq<char> {
    "Unsupported ML-KEM parameter set: "@ + decimal(parameter_set as nat)
}

/// The message where no post-quantum algorithm has a key type and a parameter set.
pub open spec fn unsupported_key_text(key_type: CK_KEY_TYPE, parameter_set: CK_ULONG) -> Seq<char> {
    "Unsupported PQC key type/parameter set: "@ + decimal(key_type as nat) + "/"@ + decimal(
        parameter_set as nat,
    )
}

impl HError<Seq<char>> {
    /// The text of the message.
    pub open spec fn text(self) -> Seq<char> {
        match self {
            HError::Default(message) => message,
            HError::IntegerConversion => "out of range integral type conversion attempted"@,
        }
    }
}

impl HError<String> {
    /// The library does not have the function.
    pub fn not_available(function: Function) -> (e: HError)
        ensures
            e@ == HError::Default(not_available_text(function)),
    {
        let mut message = function.name().to_owned();
        message.append(" not available on library");
        HError::Default(message)
    }

    /// The function returned something else than `CKR_OK`.
    pub fn call_failed(function: Function, rv: CK_RV) -> (e: HError)
        ensures
            e@ == HError::Default(call_failed_text(function, rv)),
    {
        let mut message = function.failure().to_owned();
        message.append(". Return code: ");
        message.append(decimal_text(rv as u64).as_str());
        HError::Default(message)
    }

    /// No ML-KEM parameter set has this number.
    pub fn unsupported_parameter_set(parameter_set: CK_ULONG) -> (e: HError)
        ensures
            e@ == HError::Default(unsupported_parameter_set_text(parameter_set)),
    {
        let mut message = "Unsupported ML-KEM parameter set: ".to_owned();
        message.append(decimal_text(parameter_set as u64).as_str());
        HError::Default(message)
    }

    /// No post-quantum algorithm has this key type and parameter set.
    pub fn unsupported_key(key_type: CK_KEY_TYPE, parameter_set: CK_ULONG) -> (e: HError)
        ensures
            e@ == HError::Default(unsupported_key_text(key_type, parameter_set)),
    {
        let mut message = "Unsupported PQC key type/parameter set: ".to_owned();
        message.append(decimal_text(key_type as u64).as_str());
        message.append("/");
        message.append(decimal_text(parameter_set as u64).as_str());
        HError::Default(message)
    }

    /// The message.
    pub fn message(&self) -> (message: String)
        ensures
            message@ == self@.text(),
    {
        match self {
            HError::Default(message) => message.clone(),
            HError::IntegerConversion => {
                "out of range integral type conversion attempted".to_owned()
            },
        }
    }
}

/// What is done with the requests of a batch.
#[derive(Debug, Clone, Copy, PartialEq, Eq, Structural)]
pub enum Direction {
    Encrypt,
    Decrypt,
}

/// An error of an operation of the HSM. `S` is how a message is held.
#[derive(Debug)]
pub enum InterfaceError<S = String> {
    /// What went wrong, in words.
    Default(S),
    /// An error of a session.
    Session(HError<S>),
}

/// An [`InterfaceError`] as contracts speak of it.
pub type InterfaceErrorView = InterfaceError<Seq<char>>;

/// The result of an operation of the HSM.
pub type InterfaceResult<T> = Result<T, InterfaceError>;

/// The result of an operation of the HSM, as contracts speak of it.
pub type InterfaceResultView<T> = Result<T, InterfaceErrorView>;

impl View for InterfaceError<String> {
    type V = InterfaceError<Seq<char>>;

    open spec fn view(&self) -> Self::V {
        match *self {
            InterfaceError::Default(message) => InterfaceError::Default(message@),
            InterfaceError::Session(e) => InterfaceError::Session(e@),
        }
    }
}

/// The message where there is already an object with the identifier of the secret key.
pub open spec fn secret_key_exists_text() -> Seq<char> {
    "A secret key with this id already exists"@
}

/// The message where there is already an object with the identifier of the private key.
pub open spec fn private_key_exists_text() -> Seq<char> {
    "A private key with this ID already exists"@
}

/// The message where there is already an object with the identifier of the public key.
pub open spec fn public_key_exists_text() -> Seq<char> {
    "A public key with this ID and the '_pk' suffix already exists"@
}

/// The message where no AES key has a length.
pub open spec fn invalid_aes_key_length_text(bits: usize) -> Seq<char> {
    "Invalid key length: "@ + decimal(bits as nat) + " bits, for and HSM AES key"@
}

/// The message where no RSA key has a length.
pub open spec fn invalid_rsa_key_length_text(bits: usize) -> Seq<char> {
    "Invalid key length: "@ + decimal(bits as nat)
        + " bits, for and HSM RSA key (valid values are 1024, 2048, 3072, 4096)"@
}

/// The message where the worker pool takes no more jobs.
pub open spec fn job_not_submitted_text() -> Seq<char> {
    "failed to submit HSM batch worker job"@
}

/// The message where the worker pool gives no more results.
pub open spec fn result_not_received_text() -> Seq<char> {
    "failed to receive HSM batch worker result"@
}

/// The message where a job of the worker pool gave no result.
pub open spec fn result_missing_text() -> Seq<char> {
    "missing HSM batch worker result"@
}

/// The message where the thread of a job panicked.
pub open spec fn worker_panicked_text(direction: Direction) -> Seq<char> {
    match direction {
        Direction::Encrypt => "parallel HSM RSA encrypt worker panicked"@,
        Direction::Decrypt => "parallel HSM RSA decrypt worker panicked"@,
    }
}

impl InterfaceError<Seq<char>> {
    /// The text of the message.
    pub open spec fn text(self) -> Seq<char> {
        match self {
            InterfaceError::Default(message) => message,
            InterfaceError::Session(e) => e.text(),
        }
    }
}

impl InterfaceError<String> {
    /// There is already an object with the identifier of the secret key.
    pub fn secret_key_exists() -> (e: InterfaceError)
        ensures
            e@ == InterfaceError::Default(secret_key_exists_text()),
    {
        InterfaceError::Default("A secret key with this id already exists".to_owned())
    }

    /// There is already an object with the identifier of the private key.
    pub fn private_key_exists() -> (e: InterfaceError)
        ensures
            e@ == InterfaceError::Default(private_key_exists_text()),
    {
        InterfaceError::Default("A private key with this ID already exists".to_owned())
    }

    /// There is already an object with the identifier of the public key.
    pub fn public_key_exists() -> (e: InterfaceError)
        ensures
            e@ == InterfaceError::Default(public_key_exists_text()),
    {
        InterfaceError::Default(
            "A public key with this ID and the '_pk' suffix already exists".to_owned(),
        )
    }

    /// No AES key has this length.
    pub fn invalid_aes_key_length(bits: usize) -> (e: InterfaceError)
        ensures
            e@ == InterfaceError::Default(invalid_aes_key_length_text(bits)),
    {
        let mut message = "Invalid key length: ".to_owned();
        message.append(decimal_text(bits as u64).as_str());
        message.append(" bits, for and HSM AES key");
        InterfaceError::Default(message)
    }

    /// No RSA key has this length.
    pub fn invalid_rsa_key_length(bits: usize) -> (e: InterfaceError)
        ensures
            e@ == InterfaceError::Default(invalid_rsa_key_length_text(bits)),
    {
        let mut message = "Invalid key length: ".to_owned();
        message.append(decimal_text(bits as u64).as_str());
        message.append(" bits, for and HSM RSA key (valid values are 1024, 2048, 3072, 4096)");
        InterfaceError::Default(message)
    }

    /// The worker pool takes no more jobs.
    pub fn job_not_submitted() -> (e: InterfaceError)
        ensures
            e@ == InterfaceError::Default(job_not_submitted_text()),
    {
        InterfaceError::Default("failed to submit HSM batch worker job".to_owned())
    }

    /// The worker pool gives no more results.
    pub fn result_not_received() -> (e: InterfaceError)
        ensures
            e@ == InterfaceError::Default(result_not_received_text()),
    {
        InterfaceError::Default("failed to receive HSM batch worker result".to_owned())
    }

    /// A job of the worker pool gave no result.
    pub fn result_missing() -> (e: InterfaceError)
        ensures
            e@ == InterfaceError::Default(result_missing_text()),
    {
        InterfaceError::Default("missing HSM batch worker result".to_owned())
    }

    /// The thread of a job panicked.
    pub fn worker_panicked(direction: Direction) -> (e: InterfaceError)
        ensures
            e@ == InterfaceError::Default(worker_panicked_text(direction)),
    {
        match direction {
            Direction::Encrypt => InterfaceError::Default(
                "parallel HSM RSA encrypt worker panicked".to_owned(),
            ),
            Direction::Decrypt => InterfaceError::Default(
                "parallel HSM RSA decrypt worker panicked".to_owned(),
            ),
        }
    }

    /// The message.
    pub fn message(&self) -> (message: String)
        ensures
            message@ == self@.text(),
    {
        match self {
            InterfaceError::Default(message) => message.clone(),
            InterfaceError::Session(e) => e.message(),
        }
    }
}

/// The words of each error of a session.
pub proof fn law_session_messages(
    function: Function,
    rv: CK_RV,
    key_type: CK_KEY_TYPE,
    parameter_set: CK_ULONG,
)
    ensures
        match function {
            Function::GenerateKeyPair => not_available_text(function) == "C_GenerateKeyPair"@
                + " not available on library"@ && call_failed_text(function, rv)
                == "Failed generating PQC key pair"@ + ". Return code: "@ + decimal(rv as nat),
            Function::EncapsulateKey => not_available_text(function) == "C_EncapsulateKey"@
                + " not available on library"@ && call_failed_text(function, rv)
                == "Failed ML-KEM encapsulation"@ + ". Return code: "@ + decimal(rv as nat),
            Function::DecapsulateKey => not_available_text(function) == "C_DecapsulateKey"@
                + " not available on library"@ && call_failed_text(function, rv)
                == "Failed ML-KEM decapsulation"@ + ". Return code: "@ + decimal(rv as nat),
            Function::VerifyInit => not_available_text(function) == "C_VerifyInit"@
                + " not available on library"@ && call_failed_text(function, rv)
                == "Failed to initialize signature verification"@ + ". Return code: "@ + decimal(
                rv as nat,
            ),
            Function::Verify => not_available_text(function) == "C_Verify"@
                + " not available on library"@ && call_failed_text(function, rv)
                == "Failed to verify signature"@ + ". Return code: "@ + decimal(rv as nat),
        },
        unsupported_parameter_set_text(parameter_set) == "Unsupported ML-KEM parameter set: "@
            + decimal(parameter_set as nat),
        unsupported_key_text(key_type, parameter_set)
            == "Unsupported PQC key type/parameter set: "@ + decimal(key_type as nat) + "/"@
            + decimal(parameter_set as nat),
        HErrorView::IntegerConversion.text() == "out of range integral type conversion attempted"@,
{
}

/// The words of each error of the HSM.
pub proof fn law_interface_messages(bits: usize, direction: Direction)
    ensures
        secret_key_exists_text() == "A secret key with this id already exists"@,
        private_key_exists_text() == "A private key with this ID already exists"@,
        public_key_exists_text() == "A public key with this ID and the '_pk' suffix already exists"@,
        invalid_aes_key_length_text(bits) == "Invalid key length: "@ + decimal(bits as nat)
            + " bits, for and HSM AES key"@,
        invalid_rsa_key_length_text(bits) == "Invalid key length: "@ + decimal(bits as nat)
            + " bits, for and HSM RSA key (valid values are 1024, 2048, 3072, 4096)"@,
        job_not_submitted_text() == "failed to submit HSM batch worker job"@,
        result_not_received_text() == "failed to receive HSM batch worker result"@,
        result_missing_text() == "missing HSM batch worker result"@,
        worker_panicked_text(direction) == if direction == Direction::Encrypt {
            "parallel HSM RSA encrypt worker panicked"@
        } else {
            "parallel HSM RSA decrypt worker panicked"@
        },
{
}

/// An error carries its words, and contracts speak of an error by them.
pub proof fn law_errors_are_seen_whole(message: String, e: HError)
    ensures
        HError::<String>::Default(message)@ == HError::Default(message@),
        HError::<String>::IntegerConversion@ == HErrorView::IntegerConversion,
        InterfaceError::<String>::Default(message)@ == InterfaceError::Default(message@),
        InterfaceError::<String>::Session(e)@ == InterfaceError::Session(e@),
        HError::Default(message@).text() == message@,
        InterfaceError::Default(message@).text() == message@,
        InterfaceError::Session(e@).text() == e@.text(),
        viewed(Err::<(), HError>(e)) == Err::<(), HErrorView>(e@),
        viewed(Ok::<String, HError>(message)) == Ok::<String, HErrorView>(message),
{
}

/// To take the error of a result as contracts speak of it changes nothing else.
pub proof fn law_viewed<T, E: View>(result: Result<T, E>)
    ensures
        match (result, viewed(result)) {
            (Ok(value), Ok(same)) => value == same,
            (Err(e), Err(seen)) => e@ == seen,
            _ => false,
        },
{
}

} // verus!
