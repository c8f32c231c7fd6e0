//! The persisted trust-anchor identity record: hash and sign algorithm pair
//! plus the opaque serialized key context, with a stable, human-diffable
//! single-line text form. Reading and writing the file itself is the
//! caller's business; this module renders and parses the text.

use vstd::prelude::*;
use vstd::string::StrSliceExecFns;
use vstd::string::StringExecFns;
use crate::algorithms::{HashAlgorithm, SignAlgorithm};
use crate::strutil::{hex_of, hex_encode, is_hex_seq, bytes_of_hex, hex_decode, lemma_hex_round_trip};

verus! {

/// Why identity-record text could not be parsed.
#[derive(Debug, Clone, PartialEq, Eq, Structural)]
pub enum RecordError {
    /// The text is not a well-formed record.
    Malformed,
}

/// Identity metadata persisted for the trust-anchor-resident key.
#[derive(Debug, Clone)]
pub struct IdentityRecord {
    /// Hash algorithm the key was created for.
    pub ak_hash_alg: HashAlgorithm,
    /// Signing algorithm the key was created for.
    pub ak_sign_alg: SignAlgorithm,
    /// Opaque serialized execution context of the key.
    pub ak_context: Vec<u8>,
}

/// Outcome of the opportunistic identity-record load the caller performed:
/// both an absent file and unparseable contents are ordinary conditions the
/// caller recovers from, not hard errors.
#[derive(Debug, Clone)]
pub enum IdentityOutcome {
    /// The file existed and parsed.
    Loaded(IdentityRecord),
    /// No file was present.
    Absent,
    /// The file existed but did not parse.
    Corrupt,
}

/// The serialized text of a record: one line, fixed key order, the context
/// rendered as lowercase hexadecimal.
pub open spec fn encode_model(h: HashAlgorithm, sg: SignAlgorithm, ctx: Seq<u8>) -> Seq<char> {
    "{\"ak_hash_alg\":\""@ + h.tag() + "\",\"ak_sign_alg\":\""@ + sg.tag()
        + "\",\"ak_context\":\""@ + hex_of(ctx) + "\"}"@
}

/// The remainder of `s` after the prefix `p`, when `p` is a prefix.
pub open spec fn spec_strip(s: Seq<char>, p: Seq<char>) -> Option<Seq<char>> {
    if p.is_prefix_of(s) {
        Some(s.skip(p.len() as int))
    } else {
        None
    }
}

/// The hash-algorithm word at the front of `s`, with the remainder.
pub open spec fn spec_parse_hash(s: Seq<char>) -> Option<(HashAlgorithm, Seq<char>)> {
    match spec_strip(s, "sha1"@) {
        Some(rest) => Some((HashAlgorithm::Sha1, rest)),
        None => match spec_strip(s, "sha256"@) {
            Some(rest) => Some((HashAlgorithm::Sha256, rest)),
            None => match spec_strip(s, "sha384"@) {
                Some(rest) => Some((HashAlgorithm::Sha384, rest)),
                None => match spec_strip(s, "sha512"@) {
                    Some(rest) => Some((HashAlgorithm::Sha512, rest)),
                    None => None,
                },
            },
        },
    }
}

/// The sign-algorithm word at the front of `s`, with the remainder.
pub open spec fn spec_parse_sign(s: Seq<char>) -> Option<(SignAlgorithm, Seq<char>)> {
    match spec_strip(s, "rsassa"@) {
        Some(rest) => Some((SignAlgorithm::RsaSsa, rest)),
        None => match spec_strip(s, "rsapss"@) {
            Some(rest) => Some((SignAlgorithm::RsaPss, rest)),
            None => match spec_strip(s, "ecdsa"@) {
                Some(rest) => Some((SignAlgorithm::Ecdsa, rest)),
                None => None,
            },
        },
    }
}

/// The record that serialized text denotes, or nothing when the text is not a
/// well-formed record.
pub open spec fn decode_model(s: Seq<char>) -> Option<(HashAlgorithm, SignAlgorithm, Seq<u8>)> {
    match spec_strip(s, "{\"ak_hash_alg\":\""@) {
        None => None,
        Some(s1) => match spec_parse_hash(s1) {
            None => None,
            Some((h, s2)) => match spec_strip(s2, "\",\"ak_sign_alg\":\""@) {
                None => None,
                Some(s3) => match spec_parse_sign(s3) {
                    None => None,
                    Some((sg, s4)) => match spec_strip(s4, "\",\"ak_context\":\""@) {
                        None => None,
                        Some(s5) => if s5.len() >= 2 && s5[s5.len() - 2] == '"' && s5[s5.len() - 1]
                            == '}' && is_hex_seq(s5.take(s5.len() - 2)) {
                            Some((h, sg, bytes_of_hex(s5.take(s5.len() - 2))))
                        } else {
                            None
                        },
                    },
                },
            },
        },
    }
}

/// Whether the characters of `s` from position `i` on start with `p`.
fn starts_with_at(s: &str, i: usize, p: &str) -> (r: bool)
    requires
        i <= s@.len(),
    ensures
        r == p@.is_prefix_of(s@.skip(i as int)),
{
    let n = s.unicode_len();
    let pl = p.unicode_len();
    if pl > n - i {
        return false;
    }
    let mut j: usize = 0;
    while j < pl
        invariant
            j <= pl,
            pl == p@.len(),
            n == s@.len(),
            i + pl <= n,
            forall|k: int| 0 <= k < j ==> p@[k] == s@[i + k],
        decreases pl - j,
    {
        if s.get_char(i + j) != p.get_char(j) {
            proof {
                assert(s@.skip(i as int)[j as int] == s@[i + j]);
                if p@.is_prefix_of(s@.skip(i as int)) {
                    assert(p@[j as int] == s@.skip(i as int).subrange(0, p@.len() as int)[
                        j as int
                    ]);
                }
            }
            return false;
        }
        j += 1;
    }
    proof {
        assert(p@ =~= s@.skip(i as int).subrange(0, p@.len() as int));
    }
    true
}

impl IdentityRecord {
    /// True exactly when both algorithm fields match the requested pair; a
    /// mismatch tells the caller to regenerate the identity, never this
    /// module's business.
    pub fn valid(&self, hash_alg: HashAlgorithm, sign_alg: SignAlgorithm) -> (r: bool)
        ensures
            r == (hash_alg == self.ak_hash_alg && sign_alg == self.ak_sign_alg),
    {
        hash_alg == self.ak_hash_alg && sign_alg == self.ak_sign_alg
    }

    /// Renders the record in its stable serialized text form.
    pub fn encode(&self) -> (r: String)
        ensures
            r@ == encode_model(self.ak_hash_alg, self.ak_sign_alg, self.ak_context@),
    {
        let mut out = String::from_str("{\"ak_hash_alg\":\"");
        out.append(self.ak_hash_alg.as_str());
        out.append("\",\"ak_sign_alg\":\"");
        out.append(self.ak_sign_alg.as_str());
        out.append("\",\"ak_context\":\"");
        let hx = hex_encode(&self.ak_context);
        out.append(hx.as_str());
        out.append("\"}");
        proof {
            assert(out@ =~= encode_model(self.ak_hash_alg, self.ak_sign_alg, self.ak_context@));
        }
        out
    }

    /// Parses serialized record text; fails exactly on text that is not a
    /// well-formed record.
    #[verifier::rlimit(80)]
    #[verifier::spinoff_prover]
    pub fn decode(s: &str) -> (r: Result<IdentityRecord, RecordError>)
        ensures
            r is Ok <==> decode_model(s@) is Some,
            r matches Ok(rec) ==> decode_model(s@) == Some(
                (rec.ak_hash_alg, rec.ak_sign_alg, rec.ak_context@),
            ),
    {
        let n = s.unicode_len();
        proof {
            assert(s@.skip(0) =~= s@);
        }
        let hash_mark = "{\"ak_hash_alg\":\"";
        if !starts_with_at(s, 0, hash_mark) {
            return Err(RecordError::Malformed);
        }
        let mut i: usize = hash_mark.unicode_len();
        proof {
            assert(s@.skip(0).skip(hash_mark@.len() as int) =~= s@.skip(hash_mark@.len() as int));
        }
        let ghost s1 = s@.skip(i as int);
        let hash: HashAlgorithm;
        if starts_with_at(s, i, "sha1") {
            hash = HashAlgorithm::Sha1;
            proof {
                assert(s1.skip("sha1"@.len() as int) =~= s@.skip(i + "sha1"@.len()));
            }
            i = i + "sha1".unicode_len();
        } else if starts_with_at(s, i, "sha256") {
            hash = HashAlgorithm::Sha256;
            proof {
                assert(s1.skip("sha256"@.len() as int) =~= s@.skip(i + "sha256"@.len()));
            }
            i = i + "sha256".unicode_len();
        } else if starts_with_at(s, i, "sha384") {
            hash = HashAlgorithm::Sha384;
            proof {
                assert(s1.skip("sha384"@.len() as int) =~= s@.skip(i + "sha384"@.len()));
            }
            i = i + "sha384".unicode_len();
        } else if starts_with_at(s, i, "sha512") {
            hash = HashAlgorithm::Sha512;
            proof {
                assert(s1.skip("sha512"@.len() as int) =~= s@.skip(i + "sha512"@.len()));
            }
            i = i + "sha512".unicode_len();
        } else {
            return Err(RecordError::Malformed);
        }
        let ghost s2 = s@.skip(i as int);
        let sign_mark = "\",\"ak_sign_alg\":\"";
        if !starts_with_at(s, i, sign_mark) {
            return Err(RecordError::Malformed);
        }
        proof {
            assert(s2.skip(sign_mark@.len() as int) =~= s@.skip(i + sign_mark@.len()));
        }
        i = i + sign_mark.unicode_len();
        let ghost s3 = s@.skip(i as int);
        let sign: SignAlgorithm;
        if starts_with_at(s, i, "rsassa") {
            sign = SignAlgorithm::RsaSsa;
            proof {
                assert(s3.skip("rsassa"@.len() as int) =~= s@.skip(i + "rsassa"@.len()));
            }
            i = i + "rsassa".unicode_len();
        } else if starts_with_at(s, i, "rsapss") {
            sign = SignAlgorithm::RsaPss;
            proof {
                assert(s3.skip("rsapss"@.len() as int) =~= s@.skip(i + "rsapss"@.len()));
            }
            i = i + "rsapss".unicode_len();
        } else if starts_with_at(s, i, "ecdsa") {
            sign = SignAlgorithm::Ecdsa;
            proof {
                assert(s3.skip("ecdsa"@.len() as int) =~= s@.skip(i + "ecdsa"@.len()));
            }
            i = i + "ecdsa".unicode_len();
        } else {
            return Err(RecordError::Malformed);
        }
        let ghost s4 = s@.skip(i as int);
        let ctx_mark = "\",\"ak_context\":\"";
        if !starts_with_at(s, i, ctx_mark) {
            return Err(RecordError::Malformed);
        }
        proof {
            assert(s4.skip(ctx_mark@.len() as int) =~= s@.skip(i + ctx_mark@.len()));
        }
        i = i + ctx_mark.unicode_len();
        let ghost s5 = s@.skip(i as int);
        if n - i < 2 {
            return Err(RecordError::Malformed);
        }
        if s.get_char(n - 2) != '"' || s.get_char(n - 1) != '}' {
            proof {
                assert(s5[s5.len() - 2] == s@[n - 2]);
                assert(s5[s5.len() - 1] == s@[n - 1]);
            }
            return Err(RecordError::Malformed);
        }
        let hex_part = s.substring_char(i, n - 2);
        proof {
            assert(hex_part@ =~= s5.take(s5.len() - 2));
            assert(s5[s5.len() - 2] == s@[n - 2]);
            assert(s5[s5.len() - 1] == s@[n - 1]);
        }
        match hex_decode(hex_part) {
            Some(ctx) => Ok(IdentityRecord { ak_hash_alg: hash, ak_sign_alg: sign, ak_context: ctx }),
            None => Err(RecordError::Malformed),
        }
    }
}

proof fn lemma_strip_concat(a: Seq<char>, b: Seq<char>)
    ensures
        spec_strip(a + b, a) == Some(b),
{
    assert(a =~= (a + b).subrange(0, a.len() as int));
    assert((a + b).skip(a.len() as int) =~= b);
}

proof fn lemma_not_prefix(p: Seq<char>, s: Seq<char>, i: int)
    requires
        0 <= i < s.len(),
        i < p.len(),
        p[i] != s[i],
    ensures
        !p.is_prefix_of(s),
{
    if p.is_prefix_of(s) {
        assert(p[i] == s.subrange(0, p.len() as int)[i]);
    }
}

/// Parsing the rendered text of any record restores that record exactly: the
/// persisted file is a faithful round trip.
#[verifier::spinoff_prover]
proof fn lemma_parse_hash_at(h: HashAlgorithm, tail: Seq<char>)
    ensures
        spec_parse_hash(h.tag() + tail) == Some((h, tail)),
{
    reveal_strlit("sha1");
    reveal_strlit("sha256");
    reveal_strlit("sha384");
    reveal_strlit("sha512");
    let s = h.tag() + tail;
    lemma_strip_concat(h.tag(), tail);
    assert(s[3] == h.tag()[3]);
    match h {
        HashAlgorithm::Sha1 => {
        },
        HashAlgorithm::Sha256 => {
            lemma_not_prefix("sha1"@, s, 3);
        },
        HashAlgorithm::Sha384 => {
            lemma_not_prefix("sha1"@, s, 3);
            lemma_not_prefix("sha256"@, s, 3);
        },
        HashAlgorithm::Sha512 => {
            lemma_not_prefix("sha1"@, s, 3);
            lemma_not_prefix("sha256"@, s, 3);
            lemma_not_prefix("sha384"@, s, 3);
        },
    }
}

#[verifier::spinoff_prover]
proof fn lemma_parse_sign_at(sg: SignAlgorithm, tail: Seq<char>)
    ensures
        spec_parse_sign(sg.tag() + tail) == Some((sg, tail)),
{
    reveal_strlit("rsassa");
    reveal_strlit("rsapss");
    reveal_strlit("ecdsa");
    let s = sg.tag() + tail;
    lemma_strip_concat(sg.tag(), tail);
    assert(s[0] == sg.tag()[0]);
    assert(s[3] == sg.tag()[3]);
    match sg {
        SignAlgorithm::RsaSsa => {
        },
        SignAlgorithm::RsaPss => {
            lemma_not_prefix("rsassa"@, s, 3);
        },
        SignAlgorithm::Ecdsa => {
            lemma_not_prefix("rsassa"@, s, 0);
            lemma_not_prefix("rsapss"@, s, 0);
        },
    }
}

/// Parsing the rendered text of any record restores that record exactly: the
/// persisted file is a faithful round trip.
#[verifier::rlimit(80)]
#[verifier::spinoff_prover]
pub proof fn lemma_record_round_trip(h: HashAlgorithm, sg: SignAlgorithm, ctx: Seq<u8>)
    ensures
        decode_model(encode_model(h, sg, ctx)) == Some((h, sg, ctx)),
{
    reveal_strlit("\"}");
    let hash_mark = "{\"ak_hash_alg\":\""@;
    let sign_mark = "\",\"ak_sign_alg\":\""@;
    let ctx_mark = "\",\"ak_context\":\""@;
    let e = "\"}"@;
    let hx = hex_of(ctx);
    lemma_hex_round_trip(ctx);
    let enc = encode_model(h, sg, ctx);
    let rest1 = h.tag() + (sign_mark + (sg.tag() + (ctx_mark + (hx + e))));
    assert(enc =~= hash_mark + rest1);
    lemma_strip_concat(hash_mark, rest1);
    assert(spec_strip(enc, hash_mark) == Some(rest1));
    let rest2 = sign_mark + (sg.tag() + (ctx_mark + (hx + e)));
    lemma_parse_hash_at(h, rest2);
    assert(spec_parse_hash(rest1) == Some((h, rest2)));
    let rest3 = sg.tag() + (ctx_mark + (hx + e));
    lemma_strip_concat(sign_mark, rest3);
    assert(spec_strip(rest2, sign_mark) == Some(rest3));
    let rest4 = ctx_mark + (hx + e);
    lemma_parse_sign_at(sg, rest4);
    assert(spec_parse_sign(rest3) == Some((sg, rest4)));
    let rest5 = hx + e;
    lemma_strip_concat(ctx_mark, rest5);
    assert(spec_strip(rest4, ctx_mark) == Some(rest5));
    assert(e.len() == 2);
    assert(rest5.len() == hx.len() + 2);
    assert(rest5[rest5.len() - 2] == e[0]);
    assert(rest5[rest5.len() - 1] == e[1]);
    assert(rest5.take(rest5.len() - 2) =~= hx);
    assert(decode_model(enc) == Some((h, sg, bytes_of_hex(hx))));
}

} // verus!
