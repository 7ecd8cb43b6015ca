//! Profile keys and profile names.
use vstd::prelude::*;

use crate::service_id;
use crate::text;

verus! {

/// The key that a profile is encrypted with.
#[derive(Debug, Clone, Copy, Eq)]
pub struct ProfileKey {
    pub bytes: [u8; 32],
}

impl PartialEq for ProfileKey {
    fn eq(&self, other: &Self) -> (r: bool) {
        text::bytes_equal(&self.bytes, &other.bytes)
    }
}

impl vstd::std_specs::cmp::PartialEqSpecImpl for ProfileKey {
    open spec fn obeys_eq_spec() -> bool {
        true
    }

    open spec fn eq_spec(&self, other: &Self) -> bool {
        self.deep_view() == other.deep_view()
    }
}

impl DeepView for ProfileKey {
    type V = Seq<u8>;

    open spec fn deep_view(&self) -> Seq<u8> {
        self.bytes@
    }
}

/// The profile key with these bytes: thirty-two of them, or it is none.
pub open spec fn profile_key_bytes(bytes: Seq<u8>) -> Option<Seq<u8>> {
    if bytes.len() == 32 {
        Some(bytes)
    } else {
        None
    }
}

impl ProfileKey {
    pub fn create(bytes: [u8; 32]) -> (key: ProfileKey)
        ensures
            key.deep_view() == bytes@,
    {
        ProfileKey { bytes }
    }

    /// The profile key with these bytes; `None` unless there are thirty-two.
    pub fn from_slice(bytes: &[u8]) -> (key: Option<ProfileKey>)
        ensures
            key.deep_view() == profile_key_bytes(bytes@),
    {
        match service_id::thirty_two(bytes) {
            Some(bytes) => Some(ProfileKey { bytes }),
            None => None,
        }
    }

    pub fn to_vec(&self) -> (bytes: Vec<u8>)
        ensures
            bytes@ == self.deep_view(),
    {
        let bytes = vstd::slice::slice_to_vec(&self.bytes);
        assert(bytes@ =~= self.bytes@);
        bytes
    }
}

/// How a name is displayed: the given name, and the family name after a space where
/// there is one.
pub open spec fn profile_name_text(given: Seq<char>, family: Option<Seq<char>>) -> Seq<char> {
    match family {
        Some(family) => given + seq![' '] + family,
        None => given,
    }
}

/// A name in its two parts.
#[derive(Debug, PartialEq)]
pub struct ProfileName {
    pub given_name: String,
    pub family_name: Option<String>,
}

impl ProfileName {
    pub fn to_string(&self) -> (text: String)
        ensures
            text@ == profile_name_text(self.given_name@, self.family_name.deep_view()),
    {
        match &self.family_name {
            Some(family) => {
                proof {
                    reveal_strlit(" ");
                    assert(" "@ =~= seq![' ']);
                }
                self.given_name.clone().concat(" ").concat(family.as_str())
            },
            None => self.given_name.clone(),
        }
    }
}

} // verus!
