//! ML-KEM encapsulation and decapsulation of a shared secret.
//!
//! The PKCS#11 library leaves the shared secret in an object of the session. Its value is read, and
//! then the object is destroyed.

use pkcs11_sys::CK_ATTRIBUTE_TYPE;
use pkcs11_sys::CK_BBOOL;
use pkcs11_sys::CK_KEY_TYPE;
use pkcs11_sys::CK_OBJECT_CLASS;
use pkcs11_sys::CK_OBJECT_HANDLE;
use pkcs11_sys::CK_SESSION_HANDLE;
use pkcs11_sys::CK_ULONG;
use vstd::prelude::*;

use super::hsm_call;
use super::outcome;
use super::pqc::ciphertext_len;
use super::pqc::mlkem_ciphertext_len;
use super::Session;
use crate::cryptoki::Attribute;
use crate::cryptoki::AttributeValue;
use crate::cryptoki::Called;
use crate::cryptoki::SessionCall;
use crate::cryptoki::SessionCallExec;
use crate::cryptoki::SessionCallView;
use crate::cryptoki::SessionReply;
use crate::cryptoki::SessionReplyExec;
use crate::cryptoki::SessionReplyView;
use crate::cryptoki::CKA_CLASS;
use crate::cryptoki::CKA_EXTRACTABLE;
use crate::cryptoki::CKA_KEY_TYPE;
use crate::cryptoki::CKA_PARAMETER_SET;
use crate::cryptoki::CKA_PRIVATE;
use crate::cryptoki::CKA_SENSITIVE;
use crate::cryptoki::CKA_TOKEN;
use crate::cryptoki::CKA_VALUE;
use crate::cryptoki::CKA_VALUE_LEN;
use crate::cryptoki::CKK_GENERIC_SECRET;
use crate::cryptoki::CKM_ML_KEM;
use crate::cryptoki::CKO_SECRET_KEY;
use crate::cryptoki::CK_FALSE;
use crate::cryptoki::CK_TRUE;
use crate::error::viewed;
use crate::error::Function;
use crate::error::HError;
use crate::error::HResult;
use crate::error::HResultView;
use crate::secret::SecretBytes;
use crate::step::Step;

verus! {

/// The length of a shared secret, in bytes.
pub const SHARED_SECRET_LEN: CK_ULONG = 32;

/// What the object that holds a shared secret must have.
pub open spec fn secret_attributes<'a>(
    secret_class: CK_OBJECT_CLASS,
    generic_type: CK_KEY_TYPE,
    value_len: CK_ULONG,
    ck_false: CK_BBOOL,
    ck_true: CK_BBOOL,
) -> Seq<Attribute<'a>> {
    seq![
        Attribute { type_: CKA_CLASS, value: AttributeValue::Ulong(secret_class) },
        Attribute { type_: CKA_KEY_TYPE, value: AttributeValue::Ulong(generic_type) },
        Attribute { type_: CKA_TOKEN, value: AttributeValue::Bool(ck_false) },
        Attribute { type_: CKA_PRIVATE, value: AttributeValue::Bool(ck_false) },
        Attribute { type_: CKA_SENSITIVE, value: AttributeValue::Bool(ck_false) },
        Attribute { type_: CKA_EXTRACTABLE, value: AttributeValue::Bool(ck_true) },
        Attribute { type_: CKA_VALUE_LEN, value: AttributeValue::Ulong(value_len) },
    ]
}

/// A generic secret that lives as long as the session and whose value can be read.
pub open spec fn shared_secret_attributes<'a>() -> Seq<Attribute<'a>> {
    secret_attributes(CKO_SECRET_KEY, CKK_GENERIC_SECRET, SHARED_SECRET_LEN, CK_FALSE, CK_TRUE)
}

/// The message where the library knows no such key.
pub open spec fn key_not_found_text() -> Seq<char> {
    "PQC key not found"@
}

/// The message where the library knows no such secret.
pub open spec fn secret_not_found_text() -> Seq<char> {
    "ML-KEM secret handle not found"@
}

/// What was read of an object, where there is such an object; else the error has the message
/// `missing`.
pub open spec fn found<T>(read: HResult<Option<T>>, missing: Seq<char>) -> HResultView<T> {
    match read {
        Ok(Some(value)) => Ok(value),
        Ok(None) => Err(HError::Default(missing)),
        Err(e) => Err(e@),
    }
}

fn require_found<T>(read: HResult<Option<T>>, missing: &str) -> (result: HResult<T>)
    ensures
        viewed(result) == found(read, missing@),
{
    match read {
        Ok(Some(value)) => Ok(value),
        Ok(None) => Err(HError::Default(missing.to_owned())),
        Err(e) => Err(e),
    }
}

/// A `CK_ULONG` as a number of bytes in memory.
pub open spec fn memory_len(len: CK_ULONG) -> HResultView<usize> {
    if len <= usize::MAX {
        Ok(len as usize)
    } else {
        Err(HError::IntegerConversion)
    }
}

fn usize_from(len: CK_ULONG) -> (result: HResult<usize>)
    ensures
        viewed(result) == memory_len(len),
{
    match usize::try_from(len) {
        Ok(n) => Ok(n),
        Err(_) => Err(HError::IntegerConversion),
    }
}

/// Whether a number of bytes, where it fits in memory at all, is one that a buffer can have.
pub open spec fn allocatable(len: CK_ULONG) -> bool {
    len <= isize::MAX || len > usize::MAX
}

/// A buffer of `len` zero bytes.
pub open spec fn zeros(len: nat) -> Seq<u8> {
    Seq::new(len, |i: int| 0u8)
}

fn zero_buffer(len: usize) -> (buffer: Vec<u8>)
    requires
        len <= isize::MAX,
    ensures
        buffer@ == zeros(len as nat),
{
    let buffer: Vec<u8> = vec![0u8; len];
    assert(buffer@ =~= zeros(len as nat));
    buffer
}

impl Session {
    /// Reads the number of the parameter set of a key, from the attribute that holds it.
    pub fn read_pqc_parameter_set<'a>(
        &self,
        key: CK_OBJECT_HANDLE,
        attribute_type: CK_ATTRIBUTE_TYPE,
    ) -> (call: SessionCallExec<'a>)
        ensures
            call@ == (SessionCallView::ReadUlong {
                session: self.handle(),
                object: key,
                attribute: attribute_type,
            }),
    {
        SessionCall::ReadUlong {
            session: self.session_handle(),
            object: key,
            attribute: attribute_type,
        }
    }

    /// The template of the object that holds a shared secret.
    pub fn mlkem_secret_template<'a>(
        secret_class: CK_OBJECT_CLASS,
        generic_type: CK_KEY_TYPE,
        value_len: CK_ULONG,
        ck_false: CK_BBOOL,
        ck_true: CK_BBOOL,
    ) -> (template: Vec<Attribute<'a>>)
        ensures
            template@ == secret_attributes(
                secret_class,
                generic_type,
                value_len,
                ck_false,
                ck_true,
            ),
    {
        let template: Vec<Attribute<'a>> = vec![
            Attribute { type_: CKA_CLASS, value: AttributeValue::Ulong(secret_class) },
            Attribute { type_: CKA_KEY_TYPE, value: AttributeValue::Ulong(generic_type) },
            Attribute { type_: CKA_TOKEN, value: AttributeValue::Bool(ck_false) },
            Attribute { type_: CKA_PRIVATE, value: AttributeValue::Bool(ck_false) },
            Attribute { type_: CKA_SENSITIVE, value: AttributeValue::Bool(ck_false) },
            Attribute { type_: CKA_EXTRACTABLE, value: AttributeValue::Bool(ck_true) },
            Attribute { type_: CKA_VALUE_LEN, value: AttributeValue::Ulong(value_len) },
        ];
        assert(template@ =~= secret_attributes(
            secret_class,
            generic_type,
            value_len,
            ck_false,
            ck_true,
        ));
        template
    }
}

/// The number that was read as the parameter set of a key.
pub fn pqc_parameter_set(read: HResult<Option<CK_ULONG>>) -> (parameter_set: HResult<CK_ULONG>)
    ensures
        viewed(parameter_set) == found(read, key_not_found_text()),
{
    require_found(read, "PQC key not found")
}

/// The value of a secret object that is being read.
#[derive(Debug, Clone, Copy)]
pub enum SecretReading {
    /// The length of the value is being read.
    Len { session: CK_SESSION_HANDLE, secret: CK_OBJECT_HANDLE },
    /// The value is being read into a buffer of `buffer_len` bytes.
    Value { buffer_len: usize },
}

impl View for SecretReading {
    type V = SecretReading;

    open spec fn view(&self) -> Self::V {
        *self
    }
}

/// How the reading of the value of a secret object begins.
pub open spec fn reading_start<'a>(session: CK_SESSION_HANDLE, secret: CK_OBJECT_HANDLE) -> Step<
    SecretReading,
    SessionCallView<'a>,
    HResultView<Seq<u8>>,
> {
    Step::Call(
        SecretReading::Len { session, secret },
        SessionCall::ReadLen { session, object: secret, attribute: CKA_VALUE },
    )
}

impl SecretReading {
    /// Whether a reply is one to the call that was made last. A length must be one that a buffer
    /// can have, and a buffer that was lent comes back with its length.
    pub open spec fn expects(self, reply: SessionReplyView) -> bool {
        match self {
            SecretReading::Len { .. } => {
                &&& reply matches SessionReply::Ulong(read)
                &&& read matches Ok(Some(len)) ==> allocatable(len)
            },
            SecretReading::Value { buffer_len } => {
                &&& reply matches SessionReply::Bytes(read)
                &&& read matches Ok(Some(buffer)) ==> buffer.len() == buffer_len
            },
        }
    }

    /// What follows a reply.
    pub open spec fn next<'a>(self, reply: SessionReplyView) -> Step<
        SecretReading,
        SessionCallView<'a>,
        HResultView<Seq<u8>>,
    > {
        match self {
            SecretReading::Len { session, secret } => match found(
                reply->Ulong_0,
                secret_not_found_text(),
            ) {
                Ok(value_len) => match memory_len(value_len) {
                    Ok(len) => Step::Call(
                        SecretReading::Value { buffer_len: len },
                        SessionCall::ReadBytes {
                            session,
                            object: secret,
                            attribute: CKA_VALUE,
                            buffer: zeros(len as nat),
                        },
                    ),
                    Err(e) => Step::Finish(Err(e)),
                },
                Err(e) => Step::Finish(Err(e)),
            },
            SecretReading::Value { .. } => Step::Finish(
                found(reply->Bytes_0, secret_not_found_text()),
            ),
        }
    }

    /// Tells whether a reply is one to the call that was made last.
    pub fn accepts(&self, reply: &SessionReplyExec) -> (accepted: bool)
        ensures
            accepted == self.expects(reply@),
    {
        match (self, reply) {
            (SecretReading::Len { .. }, SessionReply::Ulong(read)) => match read {
                Ok(Some(len)) => *len <= isize::MAX as CK_ULONG || *len > usize::MAX as CK_ULONG,
                _ => true,
            },
            (SecretReading::Value { buffer_len }, SessionReply::Bytes(read)) => match read {
                Ok(Some(buffer)) => buffer.len() == *buffer_len,
                _ => true,
            },
            _ => false,
        }
    }

    /// Goes on with the reply to the call that was made last.
    pub fn resume<'a>(self, reply: SessionReplyExec) -> (step: Step<
        SecretReading,
        SessionCallExec<'a>,
        HResult<Vec<u8>>,
    >)
        requires
            self.expects(reply@),
        ensures
            step@ == self.next(reply@),
    {
        match (self, reply) {
            (SecretReading::Len { session, secret }, SessionReply::Ulong(read)) => {
                match require_found(read, "ML-KEM secret handle not found") {
                    Ok(value_len) => match usize_from(value_len) {
                        Ok(len) => Step::Call(
                            SecretReading::Value { buffer_len: len },
                            SessionCall::ReadBytes {
                                session,
                                object: secret,
                                attribute: CKA_VALUE,
                                buffer: zero_buffer(len),
                            },
                        ),
                        Err(e) => Step::Finish(Err(e)),
                    },
                    Err(e) => Step::Finish(Err(e)),
                }
            },
            (SecretReading::Value { .. }, SessionReply::Bytes(read)) => Step::Finish(
                require_found(read, "ML-KEM secret handle not found"),
            ),
            _ => vstd::pervasive::unreached(),
        }
    }
}

impl Session {
    /// Reads the value of a secret object: first its length, then as many bytes.
    pub fn read_secret_value<'a>(&self, secret: CK_OBJECT_HANDLE) -> (step: Step<
        SecretReading,
        SessionCallExec<'a>,
        HResult<Vec<u8>>,
    >)
        ensures
            step@ == reading_start(self.handle(), secret),
    {
        Step::Call(
            SecretReading::Len { session: self.session_handle(), secret },
            SessionCall::ReadLen {
                session: self.session_handle(),
                object: secret,
                attribute: CKA_VALUE,
            },
        )
    }
}

/// A shared secret that is being encapsulated. `B` is how bytes are held.
pub enum Encapsulation<B> {
    /// The parameter set of the public key is being read.
    ReadingParameterSet { session: Session, public_key: CK_OBJECT_HANDLE },
    /// The secret is being made and encapsulated, in a buffer of `buffer_len` bytes.
    Encapsulating { session: Session, buffer_len: usize },
    /// The value of the secret is being read.
    ReadingSecret {
        session: Session,
        secret: CK_OBJECT_HANDLE,
        ciphertext: B,
        reading: SecretReading,
    },
    /// The object that held the secret is being destroyed.
    Destroying { value: B, ciphertext: B },
}

impl View for Encapsulation<Vec<u8>> {
    type V = Encapsulation<Seq<u8>>;

    open spec fn view(&self) -> Self::V {
        match *self {
            Encapsulation::ReadingParameterSet { session, public_key } =>
                Encapsulation::ReadingParameterSet { session, public_key },
            Encapsulation::Encapsulating { session, buffer_len } => Encapsulation::Encapsulating {
                session,
                buffer_len,
            },
            Encapsulation::ReadingSecret { session, secret, ciphertext, reading } =>
                Encapsulation::ReadingSecret { session, secret, ciphertext: ciphertext@, reading },
            Encapsulation::Destroying { value, ciphertext } => Encapsulation::Destroying {
                value: value@,
                ciphertext: ciphertext@,
            },
        }
    }
}

/// The part of a buffer that holds the ciphertext.
pub open spec fn written(buffer: Seq<u8>, len: usize) -> Seq<u8> {
    if len < buffer.len() {
        buffer.take(len as int)
    } else {
        buffer
    }
}

/// How an encapsulation begins.
pub open spec fn encapsulation_start<'a>(session: Session, public_key: CK_OBJECT_HANDLE) -> Step<
    Encapsulation<Seq<u8>>,
    SessionCallView<'a>,
    HResultView<(Seq<u8>, Seq<u8>)>,
> {
    Step::Call(
        Encapsulation::ReadingParameterSet { session, public_key },
        SessionCall::ReadUlong {
            session: session.handle(),
            object: public_key,
            attribute: CKA_PARAMETER_SET,
        },
    )
}

impl Encapsulation<Seq<u8>> {
    /// Whether a reply is one to the call that was made last. A buffer that was lent comes back with
    /// its length.
    pub open spec fn expects(self, reply: SessionReplyView) -> bool {
        match self {
            Encapsulation::ReadingParameterSet { .. } => reply is Ulong,
            Encapsulation::Encapsulating { buffer_len, .. } => {
                &&& reply matches SessionReply::Encapsulated(called)
                &&& called matches Called::Returned(_, output) ==> output.ciphertext.len()
                    == buffer_len
            },
            Encapsulation::ReadingSecret { reading, .. } => reading.expects(reply),
            Encapsulation::Destroying { .. } => reply is Done,
        }
    }

    /// What follows a reply.
    pub open spec fn next<'a>(self, reply: SessionReplyView) -> Step<
        Encapsulation<Seq<u8>>,
        SessionCallView<'a>,
        HResultView<(Seq<u8>, Seq<u8>)>,
    > {
        match self {
            Encapsulation::ReadingParameterSet { session, public_key } => match found(
                reply->Ulong_0,
                key_not_found_text(),
            ) {
                Ok(parameter_set) => match ciphertext_len(parameter_set) {
                    Ok(len) => Step::Call(
                        Encapsulation::Encapsulating { session, buffer_len: len },
                        SessionCall::EncapsulateKey {
                            session: session.handle(),
                            mechanism: CKM_ML_KEM,
                            public_key,
                            secret_template: shared_secret_attributes(),
                            buffer: zeros(len as nat),
                        },
                    ),
                    Err(e) => Step::Finish(Err(e)),
                },
                Err(e) => Step::Finish(Err(e)),
            },
            Encapsulation::Encapsulating { session, .. } => match outcome(
                Function::EncapsulateKey,
                reply->Encapsulated_0,
            ) {
                Ok(output) => match memory_len(output.ciphertext_len) {
                    Ok(len) => Step::Call(
                        Encapsulation::ReadingSecret {
                            session,
                            secret: output.secret,
                            ciphertext: written(output.ciphertext, len),
                            reading: reading_start(session.handle(), output.secret)->Call_0,
                        },
                        reading_start(session.handle(), output.secret)->Call_1,
                    ),
                    Err(e) => Step::Finish(Err(e)),
                },
                Err(e) => Step::Finish(Err(e)),
            },
            Encapsulation::ReadingSecret { session, secret, ciphertext, reading } => {
                match reading.next(reply) {
                    Step::Call(reading, call) => Step::Call(
                        Encapsulation::ReadingSecret { session, secret, ciphertext, reading },
                        call,
                    ),
                    Step::Finish(Ok(value)) => Step::Call(
                        Encapsulation::Destroying { value, ciphertext },
                        SessionCall::DestroyObject { session: session.handle(), object: secret },
                    ),
                    Step::Finish(Err(e)) => Step::Finish(Err(e)),
                }
            },
            Encapsulation::Destroying { value, ciphertext } => match reply->Done_0 {
                Ok(_) => Step::Finish(Ok((value, ciphertext))),
                Err(e) => Step::Finish(Err(e@)),
            },
        }
    }
}

impl Encapsulation<Vec<u8>> {
    /// Tells whether a reply is one to the call that was made last.
    pub fn accepts(&self, reply: &SessionReplyExec) -> (accepted: bool)
        ensures
            accepted == self@.expects(reply@),
    {
        match (self, reply) {
            (Encapsulation::ReadingParameterSet { .. }, SessionReply::Ulong(_)) => true,
            (
                Encapsulation::Encapsulating { buffer_len, .. },
                SessionReply::Encapsulated(called),
            ) => match called {
                Called::Returned(_, output) => output.ciphertext.len() == *buffer_len,
                Called::NotAvailable => true,
            },
            (Encapsulation::ReadingSecret { reading, .. }, _) => reading.accepts(reply),
            (Encapsulation::Destroying { .. }, SessionReply::Done(_)) => true,
            _ => false,
        }
    }

    /// Goes on with the reply to the call that was made last.
    ///
    /// The first call that fails ends the operation. The object that holds the secret is destroyed
    /// once its value has been read.
    pub fn resume<'a>(self, reply: SessionReplyExec) -> (step: Step<
        Encapsulation<Vec<u8>>,
        SessionCallExec<'a>,
        HResult<(SecretBytes, Vec<u8>)>,
    >)
        requires
            self@.expects(reply@),
        ensures
            step@ == self@.next(reply@),
    {
        match self {
            Encapsulation::ReadingParameterSet { session, public_key } => match reply {
                SessionReply::Ulong(read) => match pqc_parameter_set(read) {
                    Ok(parameter_set) => match mlkem_ciphertext_len(parameter_set) {
                        Ok(len) => Step::Call(
                            Encapsulation::Encapsulating { session, buffer_len: len },
                            SessionCall::EncapsulateKey {
                                session: session.session_handle(),
                                mechanism: CKM_ML_KEM,
                                public_key,
                                secret_template: Session::mlkem_secret_template(
                                    CKO_SECRET_KEY,
                                    CKK_GENERIC_SECRET,
                                    SHARED_SECRET_LEN,
                                    CK_FALSE,
                                    CK_TRUE,
                                ),
                                buffer: zero_buffer(len),
                            },
                        ),
                        Err(e) => Step::Finish(Err(e)),
                    },
                    Err(e) => Step::Finish(Err(e)),
                },
                _ => vstd::pervasive::unreached(),
            },
            Encapsulation::Encapsulating { session, .. } => match reply {
                SessionReply::Encapsulated(called) => {
                    match hsm_call(Function::EncapsulateKey, called) {
                        Ok(output) => match usize_from(output.ciphertext_len) {
                            Ok(len) => {
                                let secret = output.secret;
                                let mut ciphertext = output.ciphertext;
                                let ghost buffer = ciphertext@;
                                ciphertext.truncate(len);
                                assert(ciphertext@ =~= written(buffer, len));
                                match session.read_secret_value(secret) {
                                    Step::Call(reading, call) => Step::Call(
                                        Encapsulation::ReadingSecret {
                                            session,
                                            secret,
                                            ciphertext,
                                            reading,
                                        },
                                        call,
                                    ),
                                    Step::Finish(_) => vstd::pervasive::unreached(),
                                }
                            },
                            Err(e) => Step::Finish(Err(e)),
                        },
                        Err(e) => Step::Finish(Err(e)),
                    }
                },
                _ => vstd::pervasive::unreached(),
            },
            Encapsulation::ReadingSecret { session, secret, ciphertext, reading } => {
                match reading.resume(reply) {
                    Step::Call(reading, call) => Step::Call(
                        Encapsulation::ReadingSecret { session, secret, ciphertext, reading },
                        call,
                    ),
                    Step::Finish(Ok(value)) => Step::Call(
                        Encapsulation::Destroying { value, ciphertext },
                        SessionCall::DestroyObject {
                            session: session.session_handle(),
                            object: secret,
                        },
                    ),
                    Step::Finish(Err(e)) => Step::Finish(Err(e)),
                }
            },
            Encapsulation::Destroying { value, ciphertext } => match reply {
                SessionReply::Done(Ok(())) => Step::Finish(
                    Ok((SecretBytes::new(value), ciphertext)),
                ),
                SessionReply::Done(Err(e)) => Step::Finish(Err(e)),
                _ => vstd::pervasive::unreached(),
            },
        }
    }
}

/// A shared secret that is being decapsulated. `B` is how bytes are held.
pub enum Decapsulation<B> {
    /// The secret is being decapsulated.
    Decapsulating { session: Session },
    /// The value of the secret is being read.
    ReadingSecret { session: Session, secret: CK_OBJECT_HANDLE, reading: SecretReading },
    /// The object that held the secret is being destroyed.
    Destroying { value: B },
}

impl View for Decapsulation<Vec<u8>> {
    type V = Decapsulation<Seq<u8>>;

    open spec fn view(&self) -> Self::V {
        match *self {
            Decapsulation::Decapsulating { session } => Decapsulation::Decapsulating { session },
            Decapsulation::ReadingSecret { session, secret, reading } =>
                Decapsulation::ReadingSecret { session, secret, reading },
            Decapsulation::Destroying { value } => Decapsulation::Destroying { value: value@ },
        }
    }
}

/// How a decapsulation begins.
pub open spec fn decapsulation_start<'a>(
    session: Session,
    private_key: CK_OBJECT_HANDLE,
    ciphertext: &'a [u8],
) -> Step<Decapsulation<Seq<u8>>, SessionCallView<'a>, HResultView<Seq<u8>>> {
    Step::Call(
        Decapsulation::Decapsulating { session },
        SessionCall::DecapsulateKey {
            session: session.handle(),
            mechanism: CKM_ML_KEM,
            private_key,
            secret_template: shared_secret_attributes(),
            ciphertext,
        },
    )
}

impl Decapsulation<Seq<u8>> {
    /// Whether a reply is one to the call that was made last.
    pub open spec fn expects(self, reply: SessionReplyView) -> bool {
        match self {
            Decapsulation::Decapsulating { .. } => reply is Decapsulated,
            Decapsulation::ReadingSecret { reading, .. } => reading.expects(reply),
            Decapsulation::Destroying { .. } => reply is Done,
        }
    }

    /// What follows a reply.
    pub open spec fn next<'a>(self, reply: SessionReplyView) -> Step<
        Decapsulation<Seq<u8>>,
        SessionCallView<'a>,
        HResultView<Seq<u8>>,
    > {
        match self {
            Decapsulation::Decapsulating { session } => match outcome(
                Function::DecapsulateKey,
                reply->Decapsulated_0,
            ) {
                Ok(secret) => Step::Call(
                    Decapsulation::ReadingSecret {
                        session,
                        secret,
                        reading: reading_start(session.handle(), secret)->Call_0,
                    },
                    reading_start(session.handle(), secret)->Call_1,
                ),
                Err(e) => Step::Finish(Err(e)),
            },
            Decapsulation::ReadingSecret { session, secret, reading } => {
                match reading.next(reply) {
                    Step::Call(reading, call) => Step::Call(
                        Decapsulation::ReadingSecret { session, secret, reading },
                        call,
                    ),
                    Step::Finish(Ok(value)) => Step::Call(
                        Decapsulation::Destroying { value },
                        SessionCall::DestroyObject { session: session.handle(), object: secret },
                    ),
                    Step::Finish(Err(e)) => Step::Finish(Err(e)),
                }
            },
            Decapsulation::Destroying { value } => match reply->Done_0 {
                Ok(_) => Step::Finish(Ok(value)),
                Err(e) => Step::Finish(Err(e@)),
            },
        }
    }
}

impl Decapsulation<Vec<u8>> {
    /// Tells whether a reply is one to the call that was made last.
    pub fn accepts(&self, reply: &SessionReplyExec) -> (accepted: bool)
        ensures
            accepted == self@.expects(reply@),
    {
        match (self, reply) {
            (Decapsulation::Decapsulating { .. }, SessionReply::Decapsulated(_)) => true,
            (Decapsulation::ReadingSecret { reading, .. }, _) => reading.accepts(reply),
            (Decapsulation::Destroying { .. }, SessionReply::Done(_)) => true,
            _ => false,
        }
    }

    /// Goes on with the reply to the call that was made last.
    ///
    /// The first call that fails ends the operation. The object that holds the secret is destroyed
    /// once its value has been read.
    pub fn resume<'a>(self, reply: SessionReplyExec) -> (step: Step<
        Decapsulation<Vec<u8>>,
        SessionCallExec<'a>,
        HResult<SecretBytes>,
    >)
        requires
            self@.expects(reply@),
        ensures
            step@ == self@.next(reply@),
    {
        match self {
            Decapsulation::Decapsulating { session } => match reply {
                SessionReply::Decapsulated(called) => {
                    match hsm_call(Function::DecapsulateKey, called) {
                        Ok(secret) => match session.read_secret_value(secret) {
                            Step::Call(reading, call) => Step::Call(
                                Decapsulation::ReadingSecret { session, secret, reading },
                                call,
                            ),
                            Step::Finish(_) => vstd::pervasive::unreached(),
                        },
                        Err(e) => Step::Finish(Err(e)),
                    }
                },
                _ => vstd::pervasive::unreached(),
            },
            Decapsulation::ReadingSecret { session, secret, reading } => {
                match reading.resume(reply) {
                    Step::Call(reading, call) => Step::Call(
                        Decapsulation::ReadingSecret { session, secret, reading },
                        call,
                    ),
                    Step::Finish(Ok(value)) => Step::Call(
                        Decapsulation::Destroying { value },
                        SessionCall::DestroyObject {
                            session: session.session_handle(),
                            object: secret,
                        },
                    ),
                    Step::Finish(Err(e)) => Step::Finish(Err(e)),
                }
            },
            Decapsulation::Destroying { value } => match reply {
                SessionReply::Done(Ok(())) => Step::Finish(Ok(SecretBytes::new(value))),
                SessionReply::Done(Err(e)) => Step::Finish(Err(e)),
                _ => vstd::pervasive::unreached(),
            },
        }
    }
}

impl Session {
    /// Makes a shared secret and encapsulates it to an ML-KEM public key.
    ///
    /// The result is the secret, then the ciphertext that its other holder decapsulates.
    pub fn mlkem_encapsulate<'a>(&self, public_key_handle: CK_OBJECT_HANDLE) -> (step: Step<
        Encapsulation<Vec<u8>>,
        SessionCallExec<'a>,
        HResult<(SecretBytes, Vec<u8>)>,
    >)
        ensures
            step@ == encapsulation_start(*self, public_key_handle),
    {
        Step::Call(
            Encapsulation::ReadingParameterSet { session: *self, public_key: public_key_handle },
            self.read_pqc_parameter_set(public_key_handle, CKA_PARAMETER_SET),
        )
    }

    /// Decapsulates a shared secret with an ML-KEM private key.
    pub fn mlkem_decapsulate<'a>(
        &self,
        private_key_handle: CK_OBJECT_HANDLE,
        ciphertext: &'a [u8],
    ) -> (step: Step<Decapsulation<Vec<u8>>, SessionCallExec<'a>, HResult<SecretBytes>>)
        ensures
            step@ == decapsulation_start(*self, private_key_handle, ciphertext),
    {
        Step::Call(
            Decapsulation::Decapsulating { session: *self },
            SessionCall::DecapsulateKey {
                session: self.session_handle(),
                mechanism: CKM_ML_KEM,
                private_key: private_key_handle,
                secret_template: Self::mlkem_secret_template(
                    CKO_SECRET_KEY,
                    CKK_GENERIC_SECRET,
                    SHARED_SECRET_LEN,
                    CK_FALSE,
                    CK_TRUE,
                ),
                ciphertext,
            },
        )
    }
}

} // verus!
