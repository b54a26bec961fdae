//! Small verified exercises: an English-number formatter feeding a counting
//! song, a FizzBuzz generator, and a password-strength validator.

pub mod bottles;
pub mod fizz_buzz;
pub mod text;
pub mod validator;
