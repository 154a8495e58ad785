//! Decision logic of a PKCS#11 hardware security module driver.
//!
//! A hardware security module (HSM) can only be reached through calls that leave the program.
//! Nothing here makes such a call. Each operation is a machine: a constructor or a
//! [`step::Step`] says which call to make next, the reply to that call resumes the machine, and the
//! machine ends with the result of the operation. The code around the library owns the handles, the
//! threads and the environment, makes the calls, and hands the replies back.

pub mod batch;
pub mod cryptoki;
pub mod error;
pub mod hsm;
pub mod secret;
pub mod session;
pub mod step;
pub mod text;
