//! The password schemes, their common interface, and lookup by name.

mod error;
pub mod scheme_01;
pub mod scheme_02;

pub use self::error::Error;
pub use self::scheme_01::Scheme01;
pub use self::scheme_02::Scheme02;

use crate::pwd::{no_line_break, valid_pwd_key, ContentToHash};
use crate::text::str_eq;
use vstd::prelude::*;

verus! {

/// The name of the scheme that new hashes use.
pub const DEFAULT_SCHEME: &'static str = "02";

/// The name `"01"`.
pub open spec fn name_01() -> Seq<char> {
    seq!['0', '1']
}

/// The name `"02"`.
pub open spec fn name_02() -> Seq<char> {
    seq!['0', '2']
}

/// A hash result with the string taken by its characters.
pub open spec fn view_str_result(r: Result<String, Error>) -> Result<Seq<char>, Error> {
    match r {
        Ok(s) => Ok(s@),
        Err(e) => Err(e),
    }
}

/// A password scheme: hashes a content with its salt under the password key,
/// and validates a content against a reference hash.
pub trait Scheme {
    /// What `hash` returns.
    spec fn spec_hash(&self, key: Seq<u8>, to_hash: ContentToHash) -> Result<Seq<char>, Error>;

    /// What `validate` returns.
    spec fn spec_validate(
        &self,
        key: Seq<u8>,
        to_hash: ContentToHash,
        pwd_ref: Seq<char>,
    ) -> Result<(), Error>;

    fn hash(&self, key: &[u8], to_hash: &ContentToHash) -> (r: Result<String, Error>)
        requires
            valid_pwd_key(key@),
        ensures
            view_str_result(r) == self.spec_hash(key@, *to_hash),
            r matches Ok(s) ==> no_line_break(s@),
    ;

    fn validate(&self, key: &[u8], to_hash: &ContentToHash, pwd_ref: &str) -> (r: Result<
        (),
        Error,
    >)
        requires
            valid_pwd_key(key@),
        ensures
            r == self.spec_validate(key@, *to_hash, pwd_ref@),
    ;
}

/// Whether the validation status of a password says it should be re-hashed.
#[derive(Debug, PartialEq, Eq, Structural)]
pub enum SchemeStatus {
    /// The password uses the latest scheme.
    Latest,
    /// The password uses an older scheme.
    Outdated,
}

/// One of the known schemes.
pub enum SchemeDispatcher {
    Scheme01(Scheme01),
    Scheme02(Scheme02),
}

impl Scheme for SchemeDispatcher {
    open spec fn spec_hash(&self, key: Seq<u8>, to_hash: ContentToHash) -> Result<Seq<char>, Error> {
        match self {
            SchemeDispatcher::Scheme01(s) => s.spec_hash(key, to_hash),
            SchemeDispatcher::Scheme02(s) => s.spec_hash(key, to_hash),
        }
    }

    open spec fn spec_validate(
        &self,
        key: Seq<u8>,
        to_hash: ContentToHash,
        pwd_ref: Seq<char>,
    ) -> Result<(), Error> {
        match self {
            SchemeDispatcher::Scheme01(s) => s.spec_validate(key, to_hash, pwd_ref),
            SchemeDispatcher::Scheme02(s) => s.spec_validate(key, to_hash, pwd_ref),
        }
    }

    fn hash(&self, key: &[u8], to_hash: &ContentToHash) -> (r: Result<String, Error>) {
        match self {
            SchemeDispatcher::Scheme01(s) => s.hash(key, to_hash),
            SchemeDispatcher::Scheme02(s) => s.hash(key, to_hash),
        }
    }

    fn validate(&self, key: &[u8], to_hash: &ContentToHash, pwd_ref: &str) -> (r: Result<(), Error>) {
        match self {
            SchemeDispatcher::Scheme01(s) => s.validate(key, to_hash, pwd_ref),
            SchemeDispatcher::Scheme02(s) => s.validate(key, to_hash, pwd_ref),
        }
    }
}

/// The scheme that carries `name`, if any: `"01"` or `"02"`.
pub open spec fn scheme_named(name: Seq<char>) -> Option<SchemeDispatcher> {
    if name == name_01() {
        Some(SchemeDispatcher::Scheme01(Scheme01))
    } else if name == name_02() {
        Some(SchemeDispatcher::Scheme02(Scheme02))
    } else {
        None
    }
}

/// Looks a scheme up by name; an unknown name gives `SchemeNotFound` with it.
pub fn get_scheme(scheme_name: &str) -> (r: Result<SchemeDispatcher, Error>)
    ensures
        scheme_named(scheme_name@) matches Some(s) ==> r == Ok::<SchemeDispatcher, Error>(s),
        scheme_named(scheme_name@) is None ==> (r matches Err(Error::SchemeNotFound(n))
            && n@ == scheme_name@),
{
    let n01 = "01";
    let n02 = "02";
    proof {
        reveal_strlit("01");
        reveal_strlit("02");
        assert(n01@ =~= name_01());
        assert(n02@ =~= name_02());
    }
    if str_eq(scheme_name, n01) {
        Ok(SchemeDispatcher::Scheme01(Scheme01))
    } else if str_eq(scheme_name, n02) {
        Ok(SchemeDispatcher::Scheme02(Scheme02))
    } else {
        Err(Error::SchemeNotFound(scheme_name.to_owned()))
    }
}

} // verus!
