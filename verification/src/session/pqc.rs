//! The post-quantum algorithms, ML-KEM and ML-DSA: what PKCS#11 calls them, and their sizes.

use pkcs11_sys::CK_ATTRIBUTE_TYPE;
use pkcs11_sys::CK_KEY_TYPE;
use pkcs11_sys::CK_MECHANISM_TYPE;
use pkcs11_sys::CK_ULONG;
use vstd::prelude::*;

use crate::cryptoki::CKA_ML_DSA_PARAMS;
use crate::cryptoki::CKA_PARAMETER_SET;
use crate::cryptoki::CKK_ML_DSA;
use crate::cryptoki::CKK_ML_KEM;
use crate::cryptoki::CKM_ML_DSA_KEY_PAIR_GEN;
use crate::cryptoki::CKM_ML_KEM_KEY_PAIR_GEN;
use crate::cryptoki::CKP_ML_DSA_44;
use crate::cryptoki::CKP_ML_DSA_65;
use crate::cryptoki::CKP_ML_DSA_87;
use crate::cryptoki::CKP_ML_KEM_1024;
use crate::cryptoki::CKP_ML_KEM_512;
use crate::cryptoki::CKP_ML_KEM_768;
use crate::error::unsupported_key_text;
use crate::error::unsupported_parameter_set_text;
use crate::error::viewed;
use crate::error::HError;
use crate::error::HErrorView;
use crate::error::HResult;
use crate::error::HResultView;
use crate::text::decimal;

verus! {

/// An algorithm with its parameter set.
#[derive(Debug, Clone, Copy, PartialEq, Eq, Structural)]
pub enum PqcKeypairAlgorithm {
    MlKem512,
    MlKem768,
    MlKem1024,
    MlDsa44,
    MlDsa65,
    MlDsa87,
}

impl PqcKeypairAlgorithm {
    /// Whether the algorithm is ML-KEM; else it is ML-DSA.
    pub open spec fn kem(self) -> bool {
        self is MlKem512 || self is MlKem768 || self is MlKem1024
    }

    /// The number in the name of the parameter set.
    pub open spec fn size(self) -> usize {
        match self {
            PqcKeypairAlgorithm::MlKem512 => 512,
            PqcKeypairAlgorithm::MlKem768 => 768,
            PqcKeypairAlgorithm::MlKem1024 => 1024,
            PqcKeypairAlgorithm::MlDsa44 => 44,
            PqcKeypairAlgorithm::MlDsa65 => 65,
            PqcKeypairAlgorithm::MlDsa87 => 87,
        }
    }

    /// The mechanism that generates a key pair.
    pub open spec fn generation_mechanism(self) -> CK_MECHANISM_TYPE {
        if self.kem() {
            CKM_ML_KEM_KEY_PAIR_GEN
        } else {
            CKM_ML_DSA_KEY_PAIR_GEN
        }
    }

    /// The type of the keys.
    pub open spec fn type_of_keys(self) -> CK_KEY_TYPE {
        if self.kem() {
            CKK_ML_KEM
        } else {
            CKK_ML_DSA
        }
    }

    /// The attribute that holds the parameter set of a key.
    pub open spec fn parameter_attribute(self) -> CK_ATTRIBUTE_TYPE {
        if self.kem() {
            CKA_PARAMETER_SET
        } else {
            CKA_ML_DSA_PARAMS
        }
    }

    /// The number of the parameter set.
    pub open spec fn set_number(self) -> CK_ULONG {
        match self {
            PqcKeypairAlgorithm::MlKem512 => CKP_ML_KEM_512,
            PqcKeypairAlgorithm::MlKem768 => CKP_ML_KEM_768,
            PqcKeypairAlgorithm::MlKem1024 => CKP_ML_KEM_1024,
            PqcKeypairAlgorithm::MlDsa44 => CKP_ML_DSA_44,
            PqcKeypairAlgorithm::MlDsa65 => CKP_ML_DSA_65,
            PqcKeypairAlgorithm::MlDsa87 => CKP_ML_DSA_87,
        }
    }

    /// The mechanism that generates a key pair.
    pub fn mechanism(self) -> (mechanism: CK_MECHANISM_TYPE)
        ensures
            mechanism == self.generation_mechanism(),
    {
        match self {
            PqcKeypairAlgorithm::MlKem512
            | PqcKeypairAlgorithm::MlKem768
            | PqcKeypairAlgorithm::MlKem1024 => CKM_ML_KEM_KEY_PAIR_GEN,
            PqcKeypairAlgorithm::MlDsa44
            | PqcKeypairAlgorithm::MlDsa65
            | PqcKeypairAlgorithm::MlDsa87 => CKM_ML_DSA_KEY_PAIR_GEN,
        }
    }

    /// The type of the keys.
    pub fn key_type(self) -> (key_type: CK_KEY_TYPE)
        ensures
            key_type == self.type_of_keys(),
    {
        match self {
            PqcKeypairAlgorithm::MlKem512
            | PqcKeypairAlgorithm::MlKem768
            | PqcKeypairAlgorithm::MlKem1024 => CKK_ML_KEM,
            PqcKeypairAlgorithm::MlDsa44
            | PqcKeypairAlgorithm::MlDsa65
            | PqcKeypairAlgorithm::MlDsa87 => CKK_ML_DSA,
        }
    }

    /// The attribute that holds the parameter set of a key.
    pub fn param_attr(self) -> (attribute: CK_ATTRIBUTE_TYPE)
        ensures
            attribute == self.parameter_attribute(),
    {
        match self {
            PqcKeypairAlgorithm::MlKem512
            | PqcKeypairAlgorithm::MlKem768
            | PqcKeypairAlgorithm::MlKem1024 => CKA_PARAMETER_SET,
            PqcKeypairAlgorithm::MlDsa44
            | PqcKeypairAlgorithm::MlDsa65
            | PqcKeypairAlgorithm::MlDsa87 => CKA_ML_DSA_PARAMS,
        }
    }

    /// The number of the parameter set.
    pub fn parameter_set(self) -> (parameter_set: CK_ULONG)
        ensures
            parameter_set == self.set_number(),
    {
        match self {
            PqcKeypairAlgorithm::MlKem512 => CKP_ML_KEM_512,
            PqcKeypairAlgorithm::MlKem768 => CKP_ML_KEM_768,
            PqcKeypairAlgorithm::MlKem1024 => CKP_ML_KEM_1024,
            PqcKeypairAlgorithm::MlDsa44 => CKP_ML_DSA_44,
            PqcKeypairAlgorithm::MlDsa65 => CKP_ML_DSA_65,
            PqcKeypairAlgorithm::MlDsa87 => CKP_ML_DSA_87,
        }
    }

    /// Whether the algorithm is ML-KEM.
    pub fn is_mlkem(self) -> (mlkem: bool)
        ensures
            mlkem == self.kem(),
    {
        matches!(
            self,
            PqcKeypairAlgorithm::MlKem512
            | PqcKeypairAlgorithm::MlKem768
            | PqcKeypairAlgorithm::MlKem1024
        )
    }
}

/// The length of the ciphertext that an ML-KEM parameter set encapsulates a secret in.
pub open spec fn ciphertext_len(parameter_set: CK_ULONG) -> HResultView<usize> {
    if parameter_set == CKP_ML_KEM_512 {
        Ok(768)
    } else if parameter_set == CKP_ML_KEM_768 {
        Ok(1088)
    } else if parameter_set == CKP_ML_KEM_1024 {
        Ok(1568)
    } else {
        Err(HError::Default(unsupported_parameter_set_text(parameter_set)))
    }
}

/// The length of the ciphertext that an ML-KEM parameter set encapsulates a secret in, in bytes.
pub fn mlkem_ciphertext_len(parameter_set: CK_ULONG) -> (len: HResult<usize>)
    ensures
        viewed(len) == ciphertext_len(parameter_set),
{
    match parameter_set {
        CKP_ML_KEM_512 => Ok(768),
        CKP_ML_KEM_768 => Ok(1088),
        CKP_ML_KEM_1024 => Ok(1568),
        x => Err(HError::unsupported_parameter_set(x)),
    }
}

/// The length that is given for a post-quantum key: the number in the name of its parameter set.
pub open spec fn key_length(key_type: CK_KEY_TYPE, parameter_set: CK_ULONG) -> HResultView<usize> {
    if key_type == CKK_ML_KEM && parameter_set == CKP_ML_KEM_512 {
        Ok(512)
    } else if key_type == CKK_ML_KEM && parameter_set == CKP_ML_KEM_768 {
        Ok(768)
    } else if key_type == CKK_ML_KEM && parameter_set == CKP_ML_KEM_1024 {
        Ok(1024)
    } else if key_type == CKK_ML_DSA && parameter_set == CKP_ML_DSA_44 {
        Ok(44)
    } else if key_type == CKK_ML_DSA && parameter_set == CKP_ML_DSA_65 {
        Ok(65)
    } else if key_type == CKK_ML_DSA && parameter_set == CKP_ML_DSA_87 {
        Ok(87)
    } else {
        Err(HError::Default(unsupported_key_text(key_type, parameter_set)))
    }
}

/// The length that is given for a post-quantum key: the number in the name of its parameter set.
pub fn pqc_key_length_in_bits(key_type: CK_KEY_TYPE, parameter_set: CK_ULONG) -> (length: HResult<
    usize,
>)
    ensures
        viewed(length) == key_length(key_type, parameter_set),
{
    match (key_type, parameter_set) {
        (CKK_ML_KEM, CKP_ML_KEM_512) => Ok(512),
        (CKK_ML_KEM, CKP_ML_KEM_768) => Ok(768),
        (CKK_ML_KEM, CKP_ML_KEM_1024) => Ok(1024),
        (CKK_ML_DSA, CKP_ML_DSA_44) => Ok(44),
        (CKK_ML_DSA, CKP_ML_DSA_65) => Ok(65),
        (CKK_ML_DSA, CKP_ML_DSA_87) => Ok(87),
        (key_type, parameter_set) => Err(HError::unsupported_key(key_type, parameter_set)),
    }
}

/// A key has a length exactly where some algorithm has its key type and its parameter set, and the
/// length is then the number in the name of that algorithm.
pub proof fn law_key_length(key_type: CK_KEY_TYPE, parameter_set: CK_ULONG, length: usize)
    ensures
        key_length(key_type, parameter_set) == Ok::<usize, HErrorView>(length) <==> exists|
            algorithm: PqcKeypairAlgorithm,
        |
            #[trigger] algorithm.type_of_keys() == key_type && algorithm.set_number()
                == parameter_set && algorithm.size() == length,
{
    let key_types = (
        PqcKeypairAlgorithm::MlKem512.type_of_keys(),
        PqcKeypairAlgorithm::MlKem768.type_of_keys(),
        PqcKeypairAlgorithm::MlKem1024.type_of_keys(),
        PqcKeypairAlgorithm::MlDsa44.type_of_keys(),
        PqcKeypairAlgorithm::MlDsa65.type_of_keys(),
        PqcKeypairAlgorithm::MlDsa87.type_of_keys(),
    );
}

/// A key type and a parameter set are those of one algorithm at most.
pub proof fn law_algorithm_of_key(left: PqcKeypairAlgorithm, right: PqcKeypairAlgorithm)
    requires
        left.type_of_keys() == right.type_of_keys(),
        left.set_number() == right.set_number(),
    ensures
        left == right,
{
}

/// Every ML-KEM algorithm has a ciphertext length, and no two the same.
pub proof fn law_ciphertext_len(left: PqcKeypairAlgorithm, right: PqcKeypairAlgorithm)
    requires
        left.kem(),
        right.kem(),
    ensures
        ciphertext_len(left.set_number()) is Ok,
        ciphertext_len(left.set_number()) == ciphertext_len(right.set_number()) <==> left == right,
{
}

/// The numbers that PKCS#11 gives to each algorithm, and the number in its name.
pub proof fn law_algorithm_numbers(algorithm: PqcKeypairAlgorithm)
    ensures
        ({
            let numbers = (
                algorithm.generation_mechanism(),
                algorithm.type_of_keys(),
                algorithm.parameter_attribute(),
                algorithm.set_number(),
                algorithm.size(),
            );
            match algorithm {
                PqcKeypairAlgorithm::MlKem512 => numbers == (0x0fu64, 0x49u64, 0x61du64, 1u64, 512usize)
                    && algorithm.kem(),
                PqcKeypairAlgorithm::MlKem768 => numbers == (0x0fu64, 0x49u64, 0x61du64, 2u64, 768usize)
                    && algorithm.kem(),
                PqcKeypairAlgorithm::MlKem1024 => numbers == (
                    0x0fu64,
                    0x49u64,
                    0x61du64,
                    3u64,
                    1024usize,
                ) && algorithm.kem(),
                PqcKeypairAlgorithm::MlDsa44 => numbers == (0x1cu64, 0x4au64, 0x638u64, 1u64, 44usize)
                    && !algorithm.kem(),
                PqcKeypairAlgorithm::MlDsa65 => numbers == (0x1cu64, 0x4au64, 0x638u64, 2u64, 65usize)
                    && !algorithm.kem(),
                PqcKeypairAlgorithm::MlDsa87 => numbers == (0x1cu64, 0x4au64, 0x638u64, 3u64, 87usize)
                    && !algorithm.kem(),
            }
        }),
{
}

/// The parameter sets 1, 2 and 3 of ML-KEM have ciphertexts of 768, 1088 and 1568 bytes. Any other
/// number is refused, and the message names it.
pub proof fn law_ciphertext_lengths(parameter_set: CK_ULONG)
    ensures
        match ciphertext_len(parameter_set) {
            Ok(len) => {
                ||| parameter_set == 1 && len == 768
                ||| parameter_set == 2 && len == 1088
                ||| parameter_set == 3 && len == 1568
            },
            Err(e) => {
                &&& parameter_set < 1 || parameter_set > 3
                &&& e matches HError::Default(message)
                &&& message == "Unsupported ML-KEM parameter set: "@ + decimal(parameter_set as nat)
            },
        },
{
}

/// The parameter sets 1, 2 and 3 have the lengths 512, 768 and 1024 under the key type of ML-KEM,
/// and 44, 65 and 87 under that of ML-DSA. Any other pair is refused, and the message names both
/// numbers.
pub proof fn law_key_lengths(key_type: CK_KEY_TYPE, parameter_set: CK_ULONG)
    ensures
        match key_length(key_type, parameter_set) {
            Ok(length) => {
                ||| key_type == 0x49 && parameter_set == 1 && length == 512
                ||| key_type == 0x49 && parameter_set == 2 && length == 768
                ||| key_type == 0x49 && parameter_set == 3 && length == 1024
                ||| key_type == 0x4a && parameter_set == 1 && length == 44
                ||| key_type == 0x4a && parameter_set == 2 && length == 65
                ||| key_type == 0x4a && parameter_set == 3 && length == 87
            },
            Err(e) => {
                &&& !((key_type == 0x49 || key_type == 0x4a) && 1 <= parameter_set <= 3)
                &&& e matches HError::Default(message)
                &&& message == "Unsupported PQC key type/parameter set: "@ + decimal(key_type as nat)
                    + "/"@ + decimal(parameter_set as nat)
            },
        },
{
}

} // verus!
