//! Hash, signing and encryption algorithm selections, as configuration words.

use vstd::prelude::*;
use crate::strutil::str_eq;

verus! {

/// Hash algorithm negotiated with the trust anchor.
#[derive(Debug, Clone, Copy, PartialEq, Eq, Structural)]
pub enum HashAlgorithm {
    Sha1,
    Sha256,
    Sha384,
    Sha512,
}

/// Signing algorithm negotiated with the trust anchor.
#[derive(Debug, Clone, Copy, PartialEq, Eq, Structural)]
pub enum SignAlgorithm {
    RsaSsa,
    RsaPss,
    Ecdsa,
}

/// Encryption algorithm negotiated with the trust anchor.
#[derive(Debug, Clone, Copy, PartialEq, Eq, Structural)]
pub enum EncryptionAlgorithm {
    Rsa,
    Ecc,
}

impl HashAlgorithm {
    /// The configuration word for this algorithm.
    pub open spec fn tag(self) -> Seq<char> {
        match self {
            HashAlgorithm::Sha1 => "sha1"@,
            HashAlgorithm::Sha256 => "sha256"@,
            HashAlgorithm::Sha384 => "sha384"@,
            HashAlgorithm::Sha512 => "sha512"@,
        }
    }

    /// The algorithm a configuration word denotes, if any.
    pub open spec fn of_tag(s: Seq<char>) -> Option<HashAlgorithm> {
        if s == "sha1"@ {
            Some(HashAlgorithm::Sha1)
        } else if s == "sha256"@ {
            Some(HashAlgorithm::Sha256)
        } else if s == "sha384"@ {
            Some(HashAlgorithm::Sha384)
        } else if s == "sha512"@ {
            Some(HashAlgorithm::Sha512)
        } else {
            None
        }
    }

    /// Renders the configuration word.
    pub fn as_str(self) -> (r: &'static str)
        ensures
            r@ == self.tag(),
    {
        match self {
            HashAlgorithm::Sha1 => "sha1",
            HashAlgorithm::Sha256 => "sha256",
            HashAlgorithm::Sha384 => "sha384",
            HashAlgorithm::Sha512 => "sha512",
        }
    }

    /// Parses the configuration word; fails exactly on unknown words.
    pub fn try_from_str(s: &str) -> (r: Option<HashAlgorithm>)
        ensures
            r == Self::of_tag(s@),
    {
        if str_eq(s, "sha1") {
            Some(HashAlgorithm::Sha1)
        } else if str_eq(s, "sha256") {
            Some(HashAlgorithm::Sha256)
        } else if str_eq(s, "sha384") {
            Some(HashAlgorithm::Sha384)
        } else if str_eq(s, "sha512") {
            Some(HashAlgorithm::Sha512)
        } else {
            None
        }
    }
}

impl SignAlgorithm {
    /// The configuration word for this algorithm.
    pub open spec fn tag(self) -> Seq<char> {
        match self {
            SignAlgorithm::RsaSsa => "rsassa"@,
            SignAlgorithm::RsaPss => "rsapss"@,
            SignAlgorithm::Ecdsa => "ecdsa"@,
        }
    }

    /// The algorithm a configuration word denotes, if any.
    pub open spec fn of_tag(s: Seq<char>) -> Option<SignAlgorithm> {
        if s == "rsassa"@ {
            Some(SignAlgorithm::RsaSsa)
        } else if s == "rsapss"@ {
            Some(SignAlgorithm::RsaPss)
        } else if s == "ecdsa"@ {
            Some(SignAlgorithm::Ecdsa)
        } else {
            None
        }
    }

    /// Renders the configuration word.
    pub fn as_str(self) -> (r: &'static str)
        ensures
            r@ == self.tag(),
    {
        match self {
            SignAlgorithm::RsaSsa => "rsassa",
            SignAlgorithm::RsaPss => "rsapss",
            SignAlgorithm::Ecdsa => "ecdsa",
        }
    }

    /// Parses the configuration word; fails exactly on unknown words.
    pub fn try_from_str(s: &str) -> (r: Option<SignAlgorithm>)
        ensures
            r == Self::of_tag(s@),
    {
        if str_eq(s, "rsassa") {
            Some(SignAlgorithm::RsaSsa)
        } else if str_eq(s, "rsapss") {
            Some(SignAlgorithm::RsaPss)
        } else if str_eq(s, "ecdsa") {
            Some(SignAlgorithm::Ecdsa)
        } else {
            None
        }
    }
}

impl EncryptionAlgorithm {
    /// The configuration word for this algorithm.
    pub open spec fn tag(self) -> Seq<char> {
        match self {
            EncryptionAlgorithm::Rsa => "rsa"@,
            EncryptionAlgorithm::Ecc => "ecc"@,
        }
    }

    /// The algorithm a configuration word denotes, if any.
    pub open spec fn of_tag(s: Seq<char>) -> Option<EncryptionAlgorithm> {
        if s == "rsa"@ {
            Some(EncryptionAlgorithm::Rsa)
        } else if s == "ecc"@ {
            Some(EncryptionAlgorithm::Ecc)
        } else {
            None
        }
    }

    /// Renders the configuration word.
    pub fn as_str(self) -> (r: &'static str)
        ensures
            r@ == self.tag(),
    {
        match self {
            EncryptionAlgorithm::Rsa => "rsa",
            EncryptionAlgorithm::Ecc => "ecc",
        }
    }

    /// Parses the configuration word; fails exactly on unknown words.
    pub fn try_from_str(s: &str) -> (r: Option<EncryptionAlgorithm>)
        ensures
            r == Self::of_tag(s@),
    {
        if str_eq(s, "rsa") {
            Some(EncryptionAlgorithm::Rsa)
        } else if str_eq(s, "ecc") {
            Some(EncryptionAlgorithm::Ecc)
        } else {
            None
        }
    }
}

} // verus!
