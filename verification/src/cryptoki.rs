//! The vocabulary of PKCS#11 (Cryptoki): constants, attribute templates, calls and their replies.

use pkcs11_sys::CK_ATTRIBUTE_TYPE;
use pkcs11_sys::CK_BBOOL;
use pkcs11_sys::CK_KEY_TYPE;
use pkcs11_sys::CK_MECHANISM_TYPE;
use pkcs11_sys::CK_OBJECT_CLASS;
use pkcs11_sys::CK_OBJECT_HANDLE;
use pkcs11_sys::CK_RV;
use pkcs11_sys::CK_SESSION_HANDLE;
use pkcs11_sys::CK_ULONG;
use vstd::prelude::*;

use crate::error::HResult;

verus! {

pub const CK_FALSE: CK_BBOOL = 0;

pub const CK_TRUE: CK_BBOOL = 1;

pub const CKO_SECRET_KEY: CK_OBJECT_CLASS = 4;

pub const CKK_GENERIC_SECRET: CK_KEY_TYPE = 0x10;

pub const CKK_ML_KEM: CK_KEY_TYPE = 0x49;

pub const CKK_ML_DSA: CK_KEY_TYPE = 0x4a;

pub const CKA_CLASS: CK_ATTRIBUTE_TYPE = 0;

pub const CKA_TOKEN: CK_ATTRIBUTE_TYPE = 1;

pub const CKA_PRIVATE: CK_ATTRIBUTE_TYPE = 2;

pub const CKA_LABEL: CK_ATTRIBUTE_TYPE = 3;

pub const CKA_VALUE: CK_ATTRIBUTE_TYPE = 0x11;

pub const CKA_KEY_TYPE: CK_ATTRIBUTE_TYPE = 0x100;

pub const CKA_ID: CK_ATTRIBUTE_TYPE = 0x102;

pub const CKA_SENSITIVE: CK_ATTRIBUTE_TYPE = 0x103;

pub const CKA_WRAP: CK_ATTRIBUTE_TYPE = 0x106;

pub const CKA_UNWRAP: CK_ATTRIBUTE_TYPE = 0x107;

pub const CKA_SIGN: CK_ATTRIBUTE_TYPE = 0x108;

pub const CKA_VERIFY: CK_ATTRIBUTE_TYPE = 0x10a;

pub const CKA_VALUE_LEN: CK_ATTRIBUTE_TYPE = 0x161;

pub const CKA_EXTRACTABLE: CK_ATTRIBUTE_TYPE = 0x162;

pub const CKA_PARAMETER_SET: CK_ATTRIBUTE_TYPE = 0x61d;

pub const CKA_ML_DSA_PARAMS: CK_ATTRIBUTE_TYPE = 0x638;

pub const CKM_ML_KEM_KEY_PAIR_GEN: CK_MECHANISM_TYPE = 0x0f;

pub const CKM_ML_KEM: CK_MECHANISM_TYPE = 0x17;

pub const CKM_ML_DSA_KEY_PAIR_GEN: CK_MECHANISM_TYPE = 0x1c;

pub const CKM_ML_DSA: CK_MECHANISM_TYPE = 0x1d;

pub const CKP_ML_KEM_512: CK_ULONG = 1;

pub const CKP_ML_KEM_768: CK_ULONG = 2;

pub const CKP_ML_KEM_1024: CK_ULONG = 3;

pub const CKP_ML_DSA_44: CK_ULONG = 1;

pub const CKP_ML_DSA_65: CK_ULONG = 2;

pub const CKP_ML_DSA_87: CK_ULONG = 3;

pub const CKR_OK: CK_RV = 0;

pub const CKR_SIGNATURE_INVALID: CK_RV = 0xc0;

pub const CKR_SIGNATURE_LEN_RANGE: CK_RV = 0xc1;

/// The value of an attribute in a template.
#[derive(Debug, Clone, Copy)]
pub enum AttributeValue<'a> {
    /// A `CK_ULONG`, or one of the types that are the same integer.
    Ulong(CK_ULONG),
    /// A `CK_BBOOL`.
    Bool(CK_BBOOL),
    /// A byte string.
    Bytes(&'a [u8]),
}

impl<'a> AttributeValue<'a> {
    /// The size of the value in bytes.
    pub open spec fn size(self) -> nat {
        match self {
            AttributeValue::Ulong(_) => vstd::layout::size_of::<CK_ULONG>(),
            AttributeValue::Bool(_) => vstd::layout::size_of::<CK_BBOOL>(),
            AttributeValue::Bytes(bytes) => bytes@.len(),
        }
    }

    /// The size of the value in bytes, as `ulValueLen` of a `CK_ATTRIBUTE` gives it.
    pub fn value_len(&self) -> (len: CK_ULONG)
        ensures
            len == self.size(),
    {
        match self {
            AttributeValue::Ulong(_) => core::mem::size_of::<CK_ULONG>() as CK_ULONG,
            AttributeValue::Bool(_) => core::mem::size_of::<CK_BBOOL>() as CK_ULONG,
            AttributeValue::Bytes(bytes) => bytes.len() as CK_ULONG,
        }
    }
}

/// An entry of a template: what the object that is created must have.
#[derive(Debug, Clone, Copy)]
pub struct Attribute<'a> {
    pub type_: CK_ATTRIBUTE_TYPE,
    pub value: AttributeValue<'a>,
}

/// A call that a session makes on the PKCS#11 library, or on the cache of object handles that the
/// sessions of a slot share. `T` is how a template is held, and `B` how a buffer is.
///
/// No mechanism here has a parameter.
pub enum SessionCall<'a, T, B> {
    /// `C_GenerateKeyPair`.
    GenerateKeyPair {
        session: CK_SESSION_HANDLE,
        mechanism: CK_MECHANISM_TYPE,
        public_template: T,
        private_template: T,
    },
    /// Remember the handle of an object under its identifier.
    CacheObjectHandle { id: &'a [u8], handle: CK_OBJECT_HANDLE },
    /// Read an attribute that is a `CK_ULONG`.
    ReadUlong { session: CK_SESSION_HANDLE, object: CK_OBJECT_HANDLE, attribute: CK_ATTRIBUTE_TYPE },
    /// Read how many bytes an attribute has.
    ReadLen { session: CK_SESSION_HANDLE, object: CK_OBJECT_HANDLE, attribute: CK_ATTRIBUTE_TYPE },
    /// Read an attribute into the buffer.
    ReadBytes {
        session: CK_SESSION_HANDLE,
        object: CK_OBJECT_HANDLE,
        attribute: CK_ATTRIBUTE_TYPE,
        buffer: B,
    },
    /// `C_EncapsulateKey`, with the buffer for the ciphertext.
    EncapsulateKey {
        session: CK_SESSION_HANDLE,
        mechanism: CK_MECHANISM_TYPE,
        public_key: CK_OBJECT_HANDLE,
        secret_template: T,
        buffer: B,
    },
    /// `C_DecapsulateKey`.
    DecapsulateKey {
        session: CK_SESSION_HANDLE,
        mechanism: CK_MECHANISM_TYPE,
        private_key: CK_OBJECT_HANDLE,
        secret_template: T,
        ciphertext: &'a [u8],
    },
    /// `C_DestroyObject`.
    DestroyObject { session: CK_SESSION_HANDLE, object: CK_OBJECT_HANDLE },
    /// `C_VerifyInit`.
    VerifyInit {
        session: CK_SESSION_HANDLE,
        mechanism: CK_MECHANISM_TYPE,
        public_key: CK_OBJECT_HANDLE,
    },
    /// `C_Verify`.
    Verify { session: CK_SESSION_HANDLE, data: &'a [u8], signature: &'a [u8] },
}

/// A [`SessionCall`] as it is made.
pub type SessionCallExec<'a> = SessionCall<'a, Vec<Attribute<'a>>, Vec<u8>>;

/// A [`SessionCall`] as contracts speak of it.
pub type SessionCallView<'a> = SessionCall<'a, Seq<Attribute<'a>>, Seq<u8>>;

impl<'a> View for SessionCall<'a, Vec<Attribute<'a>>, Vec<u8>> {
    type V = SessionCall<'a, Seq<Attribute<'a>>, Seq<u8>>;

    open spec fn view(&self) -> Self::V {
        match *self {
            SessionCall::GenerateKeyPair { session, mechanism, public_template, private_template } =>
                SessionCall::GenerateKeyPair {
                    session,
                    mechanism,
                    public_template: public_template@,
                    private_template: private_template@,
                },
            SessionCall::CacheObjectHandle { id, handle } => SessionCall::CacheObjectHandle {
                id,
                handle,
            },
            SessionCall::ReadUlong { session, object, attribute } => SessionCall::ReadUlong {
                session,
                object,
                attribute,
            },
            SessionCall::ReadLen { session, object, attribute } => SessionCall::ReadLen {
                session,
                object,
                attribute,
            },
            SessionCall::ReadBytes { session, object, attribute, buffer } => SessionCall::ReadBytes {
                session,
                object,
                attribute,
                buffer: buffer@,
            },
            SessionCall::EncapsulateKey {
                session,
                mechanism,
                public_key,
                secret_template,
                buffer,
            } => SessionCall::EncapsulateKey {
                session,
                mechanism,
                public_key,
                secret_template: secret_template@,
                buffer: buffer@,
            },
            SessionCall::DecapsulateKey {
                session,
                mechanism,
                private_key,
                secret_template,
                ciphertext,
            } => SessionCall::DecapsulateKey {
                session,
                mechanism,
                private_key,
                secret_template: secret_template@,
                ciphertext,
            },
            SessionCall::DestroyObject { session, object } => SessionCall::DestroyObject {
                session,
                object,
            },
            SessionCall::VerifyInit { session, mechanism, public_key } => SessionCall::VerifyInit {
                session,
                mechanism,
                public_key,
            },
            SessionCall::Verify { session, data, signature } => SessionCall::Verify {
                session,
                data,
                signature,
            },
        }
    }
}

/// How a call of a function of the PKCS#11 library ended.
pub enum Called<T> {
    /// The library does not have the function.
    NotAvailable,
    /// The function returned a code; `T` is what it left in its output parameters.
    Returned(CK_RV, T),
}

/// The two handles that `C_GenerateKeyPair` gives.
#[derive(Debug, Clone, Copy)]
pub struct KeyPairHandles {
    pub public_key: CK_OBJECT_HANDLE,
    pub private_key: CK_OBJECT_HANDLE,
}

/// What `C_EncapsulateKey` gives: the buffer it was lent, how much of it is the ciphertext, and
/// the object that holds the shared secret.
pub struct Encapsulated<B> {
    pub ciphertext: B,
    pub ciphertext_len: CK_ULONG,
    pub secret: CK_OBJECT_HANDLE,
}

/// The reply to a [`SessionCall`]. `B` is how a buffer is held.
///
/// An attribute that is read is `None` where the library knows no such object.
pub enum SessionReply<B> {
    /// The reply to `GenerateKeyPair`.
    KeyPair(Called<KeyPairHandles>),
    /// The reply to `CacheObjectHandle` and to `DestroyObject`.
    Done(HResult<()>),
    /// The reply to `ReadUlong` and to `ReadLen`.
    Ulong(HResult<Option<CK_ULONG>>),
    /// The reply to `ReadBytes`: the buffer that was lent.
    Bytes(HResult<Option<B>>),
    /// The reply to `EncapsulateKey`.
    Encapsulated(Called<Encapsulated<B>>),
    /// The reply to `DecapsulateKey`: the object that holds the shared secret.
    Decapsulated(Called<CK_OBJECT_HANDLE>),
    /// The reply to `VerifyInit` and to `Verify`.
    Status(Called<()>),
}

/// A [`SessionReply`] as it is received.
pub type SessionReplyExec = SessionReply<Vec<u8>>;

/// A [`SessionReply`] as contracts speak of it.
pub type SessionReplyView = SessionReply<Seq<u8>>;

impl View for SessionReply<Vec<u8>> {
    type V = SessionReply<Seq<u8>>;

    open spec fn view(&self) -> Self::V {
        match *self {
            SessionReply::KeyPair(called) => SessionReply::KeyPair(called),
            SessionReply::Done(result) => SessionReply::Done(result),
            SessionReply::Ulong(result) => SessionReply::Ulong(result),
            SessionReply::Bytes(Ok(Some(buffer))) => SessionReply::Bytes(Ok(Some(buffer@))),
            SessionReply::Bytes(Ok(None)) => SessionReply::Bytes(Ok(None)),
            SessionReply::Bytes(Err(e)) => SessionReply::Bytes(Err(e)),
            SessionReply::Encapsulated(Called::NotAvailable) => SessionReply::Encapsulated(
                Called::NotAvailable,
            ),
            SessionReply::Encapsulated(Called::Returned(rv, output)) => SessionReply::Encapsulated(
                Called::Returned(
                    rv,
                    Encapsulated {
                        ciphertext: output.ciphertext@,
                        ciphertext_len: output.ciphertext_len,
                        secret: output.secret,
                    },
                ),
            ),
            SessionReply::Decapsulated(called) => SessionReply::Decapsulated(called),
            SessionReply::Status(called) => SessionReply::Status(called),
        }
    }
}

/// The numbers that PKCS#11 gives its names.
pub proof fn law_numbers()
    ensures
        CK_FALSE == 0,
        CK_TRUE == 1,
        CKO_SECRET_KEY == 4,
        CKK_GENERIC_SECRET == 0x10,
        CKK_ML_KEM == 0x49,
        CKK_ML_DSA == 0x4a,
        CKA_CLASS == 0,
        CKA_TOKEN == 1,
        CKA_PRIVATE == 2,
        CKA_LABEL == 3,
        CKA_VALUE == 0x11,
        CKA_KEY_TYPE == 0x100,
        CKA_ID == 0x102,
        CKA_SENSITIVE == 0x103,
        CKA_WRAP == 0x106,
        CKA_UNWRAP == 0x107,
        CKA_SIGN == 0x108,
        CKA_VERIFY == 0x10a,
        CKA_VALUE_LEN == 0x161,
        CKA_EXTRACTABLE == 0x162,
        CKA_PARAMETER_SET == 0x61d,
        CKA_ML_DSA_PARAMS == 0x638,
        CKM_ML_KEM_KEY_PAIR_GEN == 0x0f,
        CKM_ML_KEM == 0x17,
        CKM_ML_DSA_KEY_PAIR_GEN == 0x1c,
        CKM_ML_DSA == 0x1d,
        CKP_ML_KEM_512 == 1,
        CKP_ML_KEM_768 == 2,
        CKP_ML_KEM_1024 == 3,
        CKP_ML_DSA_44 == 1,
        CKP_ML_DSA_65 == 2,
        CKP_ML_DSA_87 == 3,
        CKR_OK == 0,
        CKR_SIGNATURE_INVALID == 0xc0,
        CKR_SIGNATURE_LEN_RANGE == 0xc1,
{
}

/// A number takes the bytes of a `CK_ULONG`, a flag one byte, and a byte string its own length.
pub proof fn law_value_sizes<'a>(n: CK_ULONG, flag: CK_BBOOL, bytes: &'a [u8])
    ensures
        AttributeValue::<'a>::Ulong(n).size() == vstd::layout::size_of::<CK_ULONG>(),
        AttributeValue::<'a>::Bool(flag).size() == 1,
        AttributeValue::Bytes(bytes).size() == bytes@.len(),
{
    broadcast use vstd::layout::layout_of_primitives;

}

/// Contracts speak of a call as it is made: of the same function, with the same handles, numbers and
/// byte strings, and with the entries of its templates and the bytes of its buffer in order.
pub proof fn law_call_is_seen_whole<'a>(call: SessionCallExec<'a>)
    ensures
        match (call, call@) {
            (
                SessionCall::GenerateKeyPair {
                    session: s,
                    mechanism: m,
                    public_template: p,
                    private_template: q,
                },
                SessionCall::GenerateKeyPair {
                    session,
                    mechanism,
                    public_template,
                    private_template,
                },
            ) => s == session && m == mechanism && p@ == public_template && q@ == private_template,
            (
                SessionCall::CacheObjectHandle { id: i, handle: h },
                SessionCall::CacheObjectHandle { id, handle },
            ) => i == id && h == handle,
            (
                SessionCall::ReadUlong { session: s, object: o, attribute: a },
                SessionCall::ReadUlong { session, object, attribute },
            ) => s == session && o == object && a == attribute,
            (
                SessionCall::ReadLen { session: s, object: o, attribute: a },
                SessionCall::ReadLen { session, object, attribute },
            ) => s == session && o == object && a == attribute,
            (
                SessionCall::ReadBytes { session: s, object: o, attribute: a, buffer: b },
                SessionCall::ReadBytes { session, object, attribute, buffer },
            ) => s == session && o == object && a == attribute && b@ == buffer,
            (
                SessionCall::EncapsulateKey {
                    session: s,
                    mechanism: m,
                    public_key: k,
                    secret_template: t,
                    buffer: b,
                },
                SessionCall::EncapsulateKey {
                    session,
                    mechanism,
                    public_key,
                    secret_template,
                    buffer,
                },
            ) => s == session && m == mechanism && k == public_key && t@ == secret_template && b@
                == buffer,
            (
                SessionCall::DecapsulateKey {
                    session: s,
                    mechanism: m,
                    private_key: k,
                    secret_template: t,
                    ciphertext: c,
                },
                SessionCall::DecapsulateKey {
                    session,
                    mechanism,
                    private_key,
                    secret_template,
                    ciphertext,
                },
            ) => s == session && m == mechanism && k == private_key && t@ == secret_template && c
                == ciphertext,
            (
                SessionCall::DestroyObject { session: s, object: o },
                SessionCall::DestroyObject { session, object },
            ) => s == session && o == object,
            (
                SessionCall::VerifyInit { session: s, mechanism: m, public_key: k },
                SessionCall::VerifyInit { session, mechanism, public_key },
            ) => s == session && m == mechanism && k == public_key,
            (
                SessionCall::Verify { session: s, data: d, signature: g },
                SessionCall::Verify { session, data, signature },
            ) => s == session && d == data && g == signature,
            _ => false,
        },
{
}

/// Contracts speak of a reply as it is received, with the bytes of its buffers in order.
pub proof fn law_reply_is_seen_whole(reply: SessionReplyExec)
    ensures
        match (reply, reply@) {
            (SessionReply::KeyPair(received), SessionReply::KeyPair(seen)) => received == seen,
            (SessionReply::Done(received), SessionReply::Done(seen)) => received == seen,
            (SessionReply::Ulong(received), SessionReply::Ulong(seen)) => received == seen,
            (SessionReply::Bytes(Ok(Some(received))), SessionReply::Bytes(Ok(Some(seen)))) =>
                received@ == seen,
            (SessionReply::Bytes(Ok(None)), SessionReply::Bytes(Ok(None))) => true,
            (SessionReply::Bytes(Err(received)), SessionReply::Bytes(Err(seen))) => received == seen,
            (
                SessionReply::Encapsulated(Called::NotAvailable),
                SessionReply::Encapsulated(Called::NotAvailable),
            ) => true,
            (
                SessionReply::Encapsulated(Called::Returned(rv, received)),
                SessionReply::Encapsulated(Called::Returned(code, seen)),
            ) => rv == code && received.ciphertext@ == seen.ciphertext && received.ciphertext_len
                == seen.ciphertext_len && received.secret == seen.secret,
            (SessionReply::Decapsulated(received), SessionReply::Decapsulated(seen)) => received
                == seen,
            (SessionReply::Status(received), SessionReply::Status(seen)) => received == seen,
            _ => false,
        },
{
}

} // verus!
