//! The serialized record format the cache tier stores.
//!
//! A stored record spells every numeric field as a twenty-digit
//! zero-padded decimal, separates fields with `;`, and appends an
//! optional address as a raw tail. Parsing is strict: it succeeds
//! exactly on the strings this module emits, so a corrupt cache entry
//! surfaces as a decode failure rather than a wrong record.

use vstd::prelude::*;
use vstd::string::{StrSliceExecFns, StringExecFns};

use crate::ban::{Ban, BanView};
use crate::digits::{
    lemma_pad_digits, lemma_u64_fits_pad20, pad_digits, parse_pad20, u64_pad20, PAD_WIDTH,
};
use crate::mute::Mute;

verus! {

/// The stored spelling of a mute record.
pub open spec fn spec_encode_mute(m: Mute) -> Seq<char> {
    pad_digits(m.user_id as nat, 20) + seq![';'] + pad_digits(m.duration as nat, 20) + seq![';']
        + pad_digits(m.initiated_at as nat, 20)
}

/// Every mute spelling is 62 characters long.
pub proof fn lemma_encode_mute_len(m: Mute)
    ensures
        spec_encode_mute(m).len() == 62,
        spec_encode_mute(m)[20] == ';',
        spec_encode_mute(m)[41] == ';',
{
    lemma_pad_digits(m.user_id as nat, 20);
    lemma_pad_digits(m.duration as nat, 20);
    lemma_pad_digits(m.initiated_at as nat, 20);
}

/// Serializes a mute record for the cache tier.
pub fn encode_mute(m: &Mute) -> (r: String)
    ensures
        r@ == spec_encode_mute(*m),
{
    proof {
        reveal_strlit(";");
    }
    let mut s = u64_pad20(m.user_id);
    s.append(";");
    let d = u64_pad20(m.duration);
    s.append(d.as_str());
    s.append(";");
    let t = u64_pad20(m.initiated_at);
    s.append(t.as_str());
    proof {
        assert(s@ =~= spec_encode_mute(*m));
    }
    s
}

/// Deserializes a mute record: succeeds exactly on the strings
/// `encode_mute` emits, and recovers the record that was encoded.
pub fn parse_mute(s: &str) -> (r: Option<Mute>)
    ensures
        r matches Some(m) ==> s@ == spec_encode_mute(m),
        forall|m: Mute| s@ == spec_encode_mute(m) ==> r == Some(m),
{
    let len = s.unicode_len();
    if len != 62 {
        proof {
            assert forall|m: Mute| s@ != spec_encode_mute(m) by {
                lemma_encode_mute_len(m);
            }
        }
        None
    } else if s.get_char(20) != ';' || s.get_char(41) != ';' {
        proof {
            assert forall|m: Mute| s@ != spec_encode_mute(m) by {
                lemma_encode_mute_len(m);
            }
        }
        None
    } else {
        let f1 = parse_pad20(s, 0);
        let f2 = parse_pad20(s, 21);
        let f3 = parse_pad20(s, 42);
        proof {
            assert forall|m: Mute| s@ == spec_encode_mute(m) implies {
                &&& s@.subrange(0, 20) == pad_digits(m.user_id as nat, 20)
                &&& s@.subrange(21, 41) == pad_digits(m.duration as nat, 20)
                &&& s@.subrange(42, 62) == pad_digits(m.initiated_at as nat, 20)
            } by {
                lemma_pad_digits(m.user_id as nat, 20);
                lemma_pad_digits(m.duration as nat, 20);
                lemma_pad_digits(m.initiated_at as nat, 20);
                assert(s@.subrange(0, 20) =~= pad_digits(m.user_id as nat, 20));
                assert(s@.subrange(21, 41) =~= pad_digits(m.duration as nat, 20));
                assert(s@.subrange(42, 62) =~= pad_digits(m.initiated_at as nat, 20));
            }
        }
        match (f1, f2, f3) {
            (Some(user_id), Some(duration), Some(initiated_at)) => {
                let m = Mute { user_id, duration, initiated_at };
                proof {
                    lemma_pad_digits(user_id as nat, 20);
                    lemma_pad_digits(duration as nat, 20);
                    lemma_pad_digits(initiated_at as nat, 20);
                    let ghost rhs = s@.subrange(0, 20) + seq![';'] + s@.subrange(21, 41)
                        + seq![';'] + s@.subrange(42, 62);
                    assert(rhs.len() == 62);
                    assert forall|i: int| 0 <= i < 62 implies rhs[i] == s@[i] by {
                        if i < 20 {
                            assert(rhs[i] == s@.subrange(0, 20)[i]);
                        } else if i == 20 {
                            assert(rhs[i] == ';');
                        } else if i < 41 {
                            assert(rhs[i] == s@.subrange(21, 41)[i - 21]);
                        } else if i == 41 {
                            assert(rhs[i] == ';');
                        } else {
                            assert(rhs[i] == s@.subrange(42, 62)[i - 42]);
                        }
                    }
                    assert(s@ =~= rhs);
                    assert(PAD_WIDTH == 20);
                    assert(s@.subrange(0, 20) == pad_digits(user_id as nat, 20));
                    assert(s@.subrange(21, 41) == pad_digits(duration as nat, 20));
                    assert(s@.subrange(42, 62) == pad_digits(initiated_at as nat, 20));
                    assert(s@ == spec_encode_mute(m));
                    assert forall|m2: Mute| s@ == spec_encode_mute(m2) implies m2 == m by {
                        lemma_u64_fits_pad20(m2.user_id);
                        lemma_u64_fits_pad20(m2.duration);
                        lemma_u64_fits_pad20(m2.initiated_at);
                        lemma_pad_digits(m2.user_id as nat, 20);
                        lemma_pad_digits(m2.duration as nat, 20);
                        lemma_pad_digits(m2.initiated_at as nat, 20);
                        lemma_u64_fits_pad20(user_id);
                        lemma_u64_fits_pad20(duration);
                        lemma_u64_fits_pad20(initiated_at);
                        assert(s@.subrange(0, 20) =~= pad_digits(m2.user_id as nat, 20));
                        assert(s@.subrange(21, 41) =~= pad_digits(m2.duration as nat, 20));
                        assert(s@.subrange(42, 62) =~= pad_digits(m2.initiated_at as nat, 20));
                    }
                }
                Some(m)
            },
            _ => {
                None
            },
        }
    }
}

/// The stored spelling of the duration field: a flag for permanence,
/// then twenty digits.
pub open spec fn spec_encode_duration(duration: Option<u64>) -> Seq<char> {
    match duration {
        None => seq!['p'] + pad_digits(0, 20),
        Some(d) => seq!['t'] + pad_digits(d as nat, 20),
    }
}

/// The stored spelling of a ban record.
pub open spec fn spec_encode_ban(b: BanView) -> Seq<char> {
    pad_digits(b.user_id as nat, 20) + seq![';'] + spec_encode_duration(b.duration) + seq![';']
        + pad_digits(b.initiated_at as nat, 20) + (match b.ip {
        None => Seq::<char>::empty(),
        Some(a) => seq![';'] + a,
    })
}

/// Every ban spelling is at least 63 characters long, with its
/// separators and flag at fixed places.
pub proof fn lemma_encode_ban_shape(b: BanView)
    ensures
        spec_encode_ban(b).len() >= 63,
        b.ip is None ==> spec_encode_ban(b).len() == 63,
        b.ip matches Some(a) ==> spec_encode_ban(b).len() == 64 + a.len(),
        spec_encode_ban(b)[20] == ';',
        spec_encode_ban(b)[42] == ';',
        spec_encode_ban(b)[21] == (if b.duration is None {
            'p'
        } else {
            't'
        }),
        b.ip is Some ==> spec_encode_ban(b)[63] == ';',
{
    lemma_pad_digits(b.user_id as nat, 20);
    lemma_pad_digits(b.initiated_at as nat, 20);
    match b.duration {
        None => {
            lemma_pad_digits(0, 20);
        },
        Some(d) => {
            lemma_pad_digits(d as nat, 20);
        },
    }
}

/// Serializes a ban record for the cache tier.
pub fn encode_ban(b: &Ban) -> (r: String)
    ensures
        r@ == spec_encode_ban(b@),
{
    proof {
        reveal_strlit(";");
        reveal_strlit("p");
        reveal_strlit("t");
    }
    let mut s = u64_pad20(b.user_id);
    s.append(";");
    match b.duration {
        None => {
            s.append("p");
            let z = u64_pad20(0);
            s.append(z.as_str());
        },
        Some(d) => {
            s.append("t");
            let dd = u64_pad20(d);
            s.append(dd.as_str());
        },
    }
    s.append(";");
    let t = u64_pad20(b.initiated_at);
    s.append(t.as_str());
    match &b.ip {
        None => {},
        Some(a) => {
            s.append(";");
            s.append(a.as_str());
        },
    }
    proof {
        assert(s@ =~= spec_encode_ban(b@));
    }
    s
}

/// Deserializes a ban record: succeeds exactly on the strings
/// `encode_ban` emits, and recovers the record that was encoded.
pub fn parse_ban(s: &str) -> (r: Option<Ban>)
    ensures
        r matches Some(b) ==> s@ == spec_encode_ban(b@),
        forall|bv: BanView| s@ == spec_encode_ban(bv) ==> (r matches Some(b) && b@ == bv),
{
    let len = s.unicode_len();
    if len < 63 {
        proof {
            assert forall|bv: BanView| s@ != spec_encode_ban(bv) by {
                lemma_encode_ban_shape(bv);
            }
        }
        return None;
    }
    if s.get_char(20) != ';' || s.get_char(42) != ';' {
        proof {
            assert forall|bv: BanView| s@ != spec_encode_ban(bv) by {
                lemma_encode_ban_shape(bv);
            }
        }
        return None;
    }
    if len > 63 && s.get_char(63) != ';' {
        proof {
            assert forall|bv: BanView| s@ != spec_encode_ban(bv) by {
                lemma_encode_ban_shape(bv);
            }
        }
        return None;
    }
    proof {
        assert forall|bv: BanView| s@ == spec_encode_ban(bv) implies {
            &&& s@.subrange(0, 20) == pad_digits(bv.user_id as nat, 20)
            &&& s@.subrange(21, 42) == spec_encode_duration(bv.duration)
            &&& s@.subrange(22, 42) == (match bv.duration {
                None => pad_digits(0, 20),
                Some(d) => pad_digits(d as nat, 20),
            })
            &&& s@.subrange(43, 63) == pad_digits(bv.initiated_at as nat, 20)
            &&& s@[21] == (if bv.duration is None {
                'p'
            } else {
                't'
            })
            &&& (bv.ip matches Some(a) ==> s@.len() == 64 + a.len() && a =~= s@.subrange(
                64,
                s@.len() as int,
            ))
            &&& (bv.ip is None ==> s@.len() == 63)
        } by {
            lemma_encode_ban_shape(bv);
            lemma_pad_digits(bv.user_id as nat, 20);
            lemma_pad_digits(bv.initiated_at as nat, 20);
            match bv.duration {
                None => {
                    lemma_pad_digits(0, 20);
                },
                Some(d) => {
                    lemma_pad_digits(d as nat, 20);
                },
            }
            assert(s@.subrange(0, 20) =~= pad_digits(bv.user_id as nat, 20));
            assert(s@.subrange(21, 42) =~= spec_encode_duration(bv.duration));
            assert(s@.subrange(22, 42) =~= (match bv.duration {
                None => pad_digits(0, 20),
                Some(d) => pad_digits(d as nat, 20),
            }));
            assert(s@.subrange(43, 63) =~= pad_digits(bv.initiated_at as nat, 20));
        }
    }
    let f1 = parse_pad20(s, 0);
    let flag = s.get_char(21);
    let f2 = parse_pad20(s, 22);
    let f3 = parse_pad20(s, 43);
    let user_id = match f1 {
        Some(v) => v,
        None => {
            return None;
        },
    };
    let dval = match f2 {
        Some(v) => v,
        None => {
            return None;
        },
    };
    let initiated_at = match f3 {
        Some(v) => v,
        None => {
            return None;
        },
    };
    let duration: Option<u64> = if flag == 'p' {
        if dval != 0 {
            proof {
                assert forall|bv: BanView| s@ != spec_encode_ban(bv) by {
                    if s@ == spec_encode_ban(bv) {
                        lemma_pad_digits(0, 20);
                        lemma_u64_fits_pad20(dval);
                        lemma_pad_digits(dval as nat, 20);
                    }
                }
            }
            return None;
        }
        None
    } else if flag == 't' {
        Some(dval)
    } else {
        proof {
            assert forall|bv: BanView| s@ != spec_encode_ban(bv) by {}
        }
        return None;
    };
    let ip: Option<String> = if len == 63 {
        None
    } else {
        Some(s.substring_char(64, len).to_owned())
    };
    let b = Ban { user_id, duration, initiated_at, ip };
    proof {
        lemma_u64_fits_pad20(user_id);
        lemma_u64_fits_pad20(dval);
        lemma_u64_fits_pad20(initiated_at);
        lemma_pad_digits(user_id as nat, 20);
        lemma_pad_digits(dval as nat, 20);
        lemma_pad_digits(initiated_at as nat, 20);
        lemma_pad_digits(0, 20);
        assert(s@ =~= spec_encode_ban(b@));
        assert forall|bv: BanView| s@ == spec_encode_ban(bv) implies b@ == bv by {
            lemma_u64_fits_pad20(bv.user_id);
            lemma_u64_fits_pad20(bv.initiated_at);
            lemma_pad_digits(bv.user_id as nat, 20);
            lemma_pad_digits(bv.initiated_at as nat, 20);
            match bv.duration {
                None => {
                    lemma_pad_digits(0, 20);
                },
                Some(d) => {
                    lemma_u64_fits_pad20(d);
                    lemma_pad_digits(d as nat, 20);
                },
            }
        }
    }
    Some(b)
}

} // verus!
