//! The configuration codec: a compact, self-describing binary encoding of
//! configurations, the subset of CBOR the initialization protocol accepts.
//!
//! A configuration is a map (major type 5) from unsigned integer field
//! identifiers (major type 0) to scalar values: unsigned integers (major
//! type 0), negative integers (major type 1), byte strings (major type 2),
//! and the simple values `false`, `true` and `null` (major type 7). Every
//! header argument width (direct, 1, 2, 4 and 8 bytes) is accepted on
//! decode; the encoder always produces the shortest form. Indefinite
//! lengths, floats and the remaining major types are rejected.

use vstd::arithmetic::div_mod::{
    lemma_div_denominator, lemma_fundamental_div_mod, lemma_fundamental_div_mod_converse,
};
use vstd::prelude::*;
use vstd::string::StringExecFns;

verus! {

/// A scalar configuration value.
#[derive(Debug, Clone, PartialEq, Eq)]
pub enum CfgScalar {
    /// The CBOR simple value `null`.
    Null,
    /// A boolean simple value.
    Bool(bool),
    /// An unsigned integer.
    Uint(u64),
    /// The negative integer `-1 - n`, where `n` is the carried value.
    Nint(u64),
    /// A byte string.
    Bytes(Vec<u8>),
}

/// The mathematical model of a scalar configuration value.
pub enum CfgVal {
    Null,
    Bool(bool),
    Uint(u64),
    Nint(u64),
    Bytes(Seq<u8>),
}

impl View for CfgScalar {
    type V = CfgVal;

    open spec fn view(&self) -> CfgVal {
        match self {
            CfgScalar::Null => CfgVal::Null,
            CfgScalar::Bool(b) => CfgVal::Bool(*b),
            CfgScalar::Uint(n) => CfgVal::Uint(*n),
            CfgScalar::Nint(n) => CfgVal::Nint(*n),
            CfgScalar::Bytes(p) => CfgVal::Bytes(p@),
        }
    }
}

/// A typed configuration: an ordered map from numeric field identifiers to
/// scalar values, as the generator expects it.
#[derive(Debug, Clone, PartialEq, Eq)]
pub struct Config {
    pub entries: Vec<(u64, CfgScalar)>,
}

impl View for Config {
    type V = Seq<(u64, CfgVal)>;

    open spec fn view(&self) -> Seq<(u64, CfgVal)> {
        self.entries@.map_values(|e: (u64, CfgScalar)| (e.0, e.1@))
    }
}

/// Why a byte sequence is not a valid encoded configuration.
#[derive(Clone, Copy, Debug, PartialEq, Eq, Structural)]
pub enum DecodeError {
    /// The input ended before the announced structure was complete.
    Truncated,
    /// A header carried an additional-information value the codec rejects:
    /// a reserved or indefinite length, or an unknown simple value.
    Reserved,
    /// A well-formed item of one kind stood where another kind was required.
    UnexpectedType,
    /// A well-formed configuration was followed by extra bytes.
    TrailingData,
}

impl DecodeError {
    /// The human-readable description of this decode failure.
    pub open spec fn text_spec(&self) -> Seq<char> {
        match self {
            DecodeError::Truncated => "unexpected end of input"@,
            DecodeError::Reserved => "reserved or unsupported header"@,
            DecodeError::UnexpectedType => "unexpected item type"@,
            DecodeError::TrailingData => "trailing bytes after the configuration"@,
        }
    }

    /// The human-readable description of this decode failure.
    pub fn text(&self) -> (s: String)
        ensures
            s@ == self.text_spec(),
    {
        match self {
            DecodeError::Truncated => String::from_str("unexpected end of input"),
            DecodeError::Reserved => String::from_str("reserved or unsupported header"),
            DecodeError::UnexpectedType => String::from_str("unexpected item type"),
            DecodeError::TrailingData => String::from_str("trailing bytes after the configuration"),
        }
    }
}

/// The first byte of a header: major type in the high three bits,
/// additional information in the low five.
pub open spec fn head_byte(major: u8, ai: u8) -> u8 {
    (major * 32 + ai) as u8
}

/// The shortest header encoding a major type and an argument.
pub open spec fn spec_enc_head(major: u8, arg: u64) -> Seq<u8> {
    if arg < 24 {
        seq![head_byte(major, arg as u8)]
    } else if arg < 0x100 {
        seq![head_byte(major, 24), arg as u8]
    } else if arg < 0x10000 {
        seq![head_byte(major, 25), (arg / 0x100) as u8, (arg % 0x100) as u8]
    } else if arg < 0x100000000 {
        seq![
            head_byte(major, 26),
            (arg / 0x1000000) as u8,
            ((arg / 0x10000) % 0x100) as u8,
            ((arg / 0x100) % 0x100) as u8,
            (arg % 0x100) as u8,
        ]
    } else {
        seq![
            head_byte(major, 27),
            (arg / 0x100000000000000) as u8,
            ((arg / 0x1000000000000) % 0x100) as u8,
            ((arg / 0x10000000000) % 0x100) as u8,
            ((arg / 0x100000000) % 0x100) as u8,
            ((arg / 0x1000000) % 0x100) as u8,
            ((arg / 0x10000) % 0x100) as u8,
            ((arg / 0x100) % 0x100) as u8,
            (arg % 0x100) as u8,
        ]
    }
}

/// Reads one header off the front of `b`: its major type, its argument, and
/// how many bytes it took. Rejects the reserved additional-information
/// values 28 to 31.
#[verifier::opaque]
pub open spec fn spec_dec_head(b: Seq<u8>) -> Result<(u8, u64, int), DecodeError> {
    if b.len() == 0 {
        Err(DecodeError::Truncated)
    } else {
        let major = (b[0] / 32) as u8;
        let ai = b[0] % 32;
        if ai < 24 {
            Ok((major, ai as u64, 1))
        } else if ai == 24 {
            if b.len() >= 2 {
                Ok((major, b[1] as u64, 2))
            } else {
                Err(DecodeError::Truncated)
            }
        } else if ai == 25 {
            if b.len() >= 3 {
                Ok((major, (b[1] * 0x100 + b[2]) as u64, 3))
            } else {
                Err(DecodeError::Truncated)
            }
        } else if ai == 26 {
            if b.len() >= 5 {
                Ok((major, (((b[1] * 0x100 + b[2]) * 0x100 + b[3]) * 0x100 + b[4]) as u64, 5))
            } else {
                Err(DecodeError::Truncated)
            }
        } else if ai == 27 {
            if b.len() >= 9 {
                Ok(
                    (
                        major,
                        (((((((b[1] * 0x100 + b[2]) * 0x100 + b[3]) * 0x100 + b[4]) * 0x100 + b[5])
                            * 0x100 + b[6]) * 0x100 + b[7]) * 0x100 + b[8]) as u64,
                        9,
                    ),
                )
            } else {
                Err(DecodeError::Truncated)
            }
        } else {
            Err(DecodeError::Reserved)
        }
    }
}

/// Whether a scalar's encoding fits the wire format's length fields.
pub open spec fn val_fits(v: CfgVal) -> bool {
    match v {
        CfgVal::Bytes(p) => p.len() <= u64::MAX,
        _ => true,
    }
}

/// The encoding of one scalar value.
pub open spec fn spec_enc_scalar(v: CfgVal) -> Seq<u8> {
    match v {
        CfgVal::Null => spec_enc_head(7, 22),
        CfgVal::Bool(false) => spec_enc_head(7, 20),
        CfgVal::Bool(true) => spec_enc_head(7, 21),
        CfgVal::Uint(n) => spec_enc_head(0, n),
        CfgVal::Nint(n) => spec_enc_head(1, n),
        CfgVal::Bytes(p) => spec_enc_head(2, p.len() as u64) + p,
    }
}

/// Reads one scalar off the front of `b`: the value and how many bytes it
/// took. The simple values `false`, `true` and `null` are accepted in their
/// one-byte form only; every other major type is rejected here.
#[verifier::opaque]
pub open spec fn spec_dec_scalar(b: Seq<u8>) -> Result<(CfgVal, int), DecodeError> {
    match spec_dec_head(b) {
        Err(e) => Err(e),
        Ok((major, arg, used)) => {
            if major == 0 {
                Ok((CfgVal::Uint(arg), used))
            } else if major == 1 {
                Ok((CfgVal::Nint(arg), used))
            } else if major == 2 {
                if b.len() - used >= arg {
                    Ok((CfgVal::Bytes(b.subrange(used, used + arg)), used + arg))
                } else {
                    Err(DecodeError::Truncated)
                }
            } else if major == 7 {
                if used == 1 && arg == 20 {
                    Ok((CfgVal::Bool(false), 1))
                } else if used == 1 && arg == 21 {
                    Ok((CfgVal::Bool(true), 1))
                } else if used == 1 && arg == 22 {
                    Ok((CfgVal::Null, 1))
                } else {
                    Err(DecodeError::Reserved)
                }
            } else {
                Err(DecodeError::UnexpectedType)
            }
        },
    }
}

/// The encoding of a sequence of configuration entries, one key header and
/// one scalar each, in order.
pub open spec fn spec_enc_entries(s: Seq<(u64, CfgVal)>) -> Seq<u8>
    decreases s.len(),
{
    if s.len() == 0 {
        Seq::<u8>::empty()
    } else {
        spec_enc_head(0, s[0].0) + spec_enc_scalar(s[0].1) + spec_enc_entries(s.drop_first())
    }
}

/// The encoding of a whole configuration: a map header carrying the entry
/// count, then the entries.
pub open spec fn spec_enc_config(s: Seq<(u64, CfgVal)>) -> Seq<u8> {
    spec_enc_head(5, s.len() as u64) + spec_enc_entries(s)
}

/// Whether a configuration's encoding fits the wire format's length fields.
pub open spec fn config_fits(s: Seq<(u64, CfgVal)>) -> bool {
    &&& s.len() <= u64::MAX
    &&& forall|i: int| 0 <= i < s.len() ==> val_fits(#[trigger] s[i].1)
}

/// Reads `n` configuration entries off the front of `b`: the entries and
/// how many bytes they took. Every key must be an unsigned integer.
pub open spec fn spec_dec_entries(b: Seq<u8>, n: nat) -> Result<
    (Seq<(u64, CfgVal)>, int),
    DecodeError,
>
    decreases n,
{
    if n == 0 {
        Ok((Seq::<(u64, CfgVal)>::empty(), 0))
    } else {
        match spec_dec_head(b) {
            Err(e) => Err(e),
            Ok((major, key, u1)) => {
                if major != 0 {
                    Err(DecodeError::UnexpectedType)
                } else {
                    match spec_dec_scalar(b.skip(u1)) {
                        Err(e) => Err(e),
                        Ok((v, u2)) => {
                            match spec_dec_entries(b.skip(u1 + u2), (n - 1) as nat) {
                                Err(e) => Err(e),
                                Ok((rest, u3)) => Ok(
                                    (seq![(key, v)] + rest, u1 + u2 + u3),
                                ),
                            }
                        },
                    }
                }
            },
        }
    }
}

/// Decodes a whole configuration: a map of unsigned-integer keys to
/// scalars, spanning the input exactly.
pub open spec fn spec_decode_config(b: Seq<u8>) -> Result<Seq<(u64, CfgVal)>, DecodeError> {
    match spec_dec_head(b) {
        Err(e) => Err(e),
        Ok((major, n, u)) => {
            if major != 5 {
                Err(DecodeError::UnexpectedType)
            } else {
                match spec_dec_entries(b.skip(u), n as nat) {
                    Err(e) => Err(e),
                    Ok((es, u2)) => {
                        if u + u2 == b.len() {
                            Ok(es)
                        } else {
                            Err(DecodeError::TrailingData)
                        }
                    },
                }
            }
        },
    }
}

/// Reads one header at `pos`. Agrees exactly with `spec_dec_head` on the
/// suffix of the input that starts at `pos`.
pub fn read_head(bytes: &Vec<u8>, pos: usize) -> (r: Result<(u8, u64, usize), DecodeError>)
    requires
        pos <= bytes.len(),
    ensures
        ({
            let s = spec_dec_head(bytes@.skip(pos as int));
            match r {
                Ok((m, a, used)) => s == Ok::<(u8, u64, int), DecodeError>((m, a, used as int))
                    && 1 <= used && pos + used <= bytes.len(),
                Err(e) => s == Err::<(u8, u64, int), DecodeError>(e),
            }
        }),
{
    let n = bytes.len();
    proof {
        reveal(spec_dec_head);
        assert(forall|k: int|
            0 <= k < n - pos ==> bytes@.skip(pos as int)[k] == bytes@[pos + k]);
    }
    if pos >= n {
        return Err(DecodeError::Truncated);
    }
    let ib = bytes[pos];
    let major = ib / 32;
    let ai = ib % 32;
    if ai < 24 {
        Ok((major, ai as u64, 1))
    } else if ai == 24 {
        if n - pos >= 2 {
            Ok((major, bytes[pos + 1] as u64, 2))
        } else {
            Err(DecodeError::Truncated)
        }
    } else if ai == 25 {
        if n - pos >= 3 {
            let a = (bytes[pos + 1] as u64) * 0x100 + (bytes[pos + 2] as u64);
            Ok((major, a, 3))
        } else {
            Err(DecodeError::Truncated)
        }
    } else if ai == 26 {
        if n - pos >= 5 {
            let a = (((bytes[pos + 1] as u64) * 0x100 + (bytes[pos + 2] as u64)) * 0x100 + (bytes[
                pos + 3] as u64)) * 0x100 + (bytes[pos + 4] as u64);
            Ok((major, a, 5))
        } else {
            Err(DecodeError::Truncated)
        }
    } else if ai == 27 {
        if n - pos >= 9 {
            let a = (((((((bytes[pos + 1] as u64) * 0x100 + (bytes[pos + 2] as u64)) * 0x100 + (
            bytes[pos + 3] as u64)) * 0x100 + (bytes[pos + 4] as u64)) * 0x100 + (bytes[pos
                + 5] as u64)) * 0x100 + (bytes[pos + 6] as u64)) * 0x100 + (bytes[pos
                + 7] as u64)) * 0x100 + (bytes[pos + 8] as u64);
            Ok((major, a, 9))
        } else {
            Err(DecodeError::Truncated)
        }
    } else {
        Err(DecodeError::Reserved)
    }
}

/// Reads one scalar at `pos`. Agrees exactly with `spec_dec_scalar` on the
/// suffix of the input that starts at `pos`.
pub fn read_scalar(bytes: &Vec<u8>, pos: usize) -> (r: Result<(CfgScalar, usize), DecodeError>)
    requires
        pos <= bytes.len(),
    ensures
        ({
            let s = spec_dec_scalar(bytes@.skip(pos as int));
            match r {
                Ok((v, used)) => (match s {
                    Ok((sv, su)) => v@ == sv && used as int == su,
                    Err(_) => false,
                }) && 1 <= used && pos + used <= bytes.len(),
                Err(e) => s == Err::<(CfgVal, int), DecodeError>(e),
            }
        }),
{
    proof {
        reveal(spec_dec_scalar);
    }
    let (major, arg, used) = match read_head(bytes, pos) {
        Err(e) => {
            return Err(e);
        },
        Ok(h) => h,
    };
    if major == 0 {
        Ok((CfgScalar::Uint(arg), used))
    } else if major == 1 {
        Ok((CfgScalar::Nint(arg), used))
    } else if major == 2 {
        let remaining = bytes.len() - (pos + used);
        if arg <= remaining as u64 {
            let count = arg as usize;
            let start = pos + used;
            let mut payload: Vec<u8> = Vec::new();
            let mut j: usize = 0;
            while j < count
                invariant
                    j <= count,
                    start + count <= bytes.len(),
                    payload@ == bytes@.subrange(start as int, start as int + j as int),
                decreases count - j,
            {
                payload.push(bytes[start + j]);
                proof {
                    assert(payload@ =~= bytes@.subrange(
                        start as int,
                        start as int + j as int + 1,
                    ));
                }
                j = j + 1;
            }
            proof {
                let s = bytes@.skip(pos as int);
                assert(s.subrange(used as int, used as int + arg as int) =~= bytes@.subrange(
                    start as int,
                    start as int + arg as int,
                ));
            }
            Ok((CfgScalar::Bytes(payload), used + count))
        } else {
            Err(DecodeError::Truncated)
        }
    } else if major == 7 {
        if used == 1 && arg == 20 {
            Ok((CfgScalar::Bool(false), 1))
        } else if used == 1 && arg == 21 {
            Ok((CfgScalar::Bool(true), 1))
        } else if used == 1 && arg == 22 {
            Ok((CfgScalar::Null, 1))
        } else {
            Err(DecodeError::Reserved)
        }
    } else {
        Err(DecodeError::UnexpectedType)
    }
}

/// The view of a partially built entry vector.
pub open spec fn entries_view(v: Seq<(u64, CfgScalar)>) -> Seq<(u64, CfgVal)> {
    v.map_values(|e: (u64, CfgScalar)| (e.0, e.1@))
}

/// Decodes a serialized configuration. Agrees exactly with
/// `spec_decode_config`: it succeeds on precisely the byte sequences that
/// are a well-formed configuration map spanning the whole input, and
/// reports the same failure otherwise.
#[verifier::rlimit(80)]
pub fn decode_config(bytes: &Vec<u8>) -> (r: Result<Config, DecodeError>)
    ensures
        match (r, spec_decode_config(bytes@)) {
            (Ok(c), Ok(m)) => c@ == m,
            (Err(e), Err(se)) => e == se,
            _ => false,
        },
{
    let (major, count, used) = match read_head(bytes, 0) {
        Err(e) => {
            proof {
                assert(bytes@.skip(0) =~= bytes@);
            }
            return Err(e);
        },
        Ok(h) => h,
    };
    proof {
        assert(bytes@.skip(0) =~= bytes@);
    }
    if major != 5 {
        return Err(DecodeError::UnexpectedType);
    }
    let mut entries: Vec<(u64, CfgScalar)> = Vec::new();
    let mut pos: usize = used;
    let mut i: u64 = 0;
    while i < count
        invariant
            i <= count,
            used <= pos <= bytes.len(),
            entries@.len() == i,
            spec_dec_head(bytes@) == Ok::<(u8, u64, int), DecodeError>((5u8, count, used as int)),
            ({
                let whole = spec_dec_entries(bytes@.skip(used as int), count as nat);
                match spec_dec_entries(bytes@.skip(pos as int), (count - i) as nat) {
                    Ok((rest, u3)) => whole == Ok::<(Seq<(u64, CfgVal)>, int), DecodeError>(
                        (entries_view(entries@) + rest, pos - used + u3),
                    ),
                    Err(e) => whole == Err::<(Seq<(u64, CfgVal)>, int), DecodeError>(e),
                }
            }),
        decreases count - i,
    {
        let ghost pre_suffix = bytes@.skip(pos as int);
        let (km, key, u1) = match read_head(bytes, pos) {
            Err(e) => {
                return Err(e);
            },
            Ok(h) => h,
        };
        if km != 0 {
            return Err(DecodeError::UnexpectedType);
        }
        proof {
            assert(bytes@.skip(pos as int).skip(u1 as int) =~= bytes@.skip(pos as int + u1 as int));
        }
        let (val, u2) = match read_scalar(bytes, pos + u1) {
            Err(e) => {
                return Err(e);
            },
            Ok(h) => h,
        };
        proof {
            assert(bytes@.skip(pos as int).skip(u1 as int + u2 as int) =~= bytes@.skip(
                pos as int + u1 as int + u2 as int,
            ));
        }
        let ghost prev_entries = entries@;
        entries.push((key, val));
        proof {
            let k = (count - i) as nat;
            let s = pre_suffix;
            let next_suffix = bytes@.skip(pos as int + u1 as int + u2 as int);
            assert(spec_dec_head(s) == Ok::<(u8, u64, int), DecodeError>(
                (0u8, key, u1 as int),
            ));
            assert(entries_view(entries@) =~= entries_view(prev_entries).push((key, val@)));
            if spec_dec_entries(next_suffix, (k - 1) as nat) is Ok {
                let (rest, u3) = spec_dec_entries(next_suffix, (k - 1) as nat)->Ok_0;
                assert(spec_dec_entries(s, k) == Ok::<(Seq<(u64, CfgVal)>, int), DecodeError>(
                    (seq![(key, val@)] + rest, u1 + u2 + u3),
                ));
                assert(entries_view(prev_entries) + (seq![(key, val@)] + rest) =~= entries_view(
                    entries@,
                ) + rest);
            } else {
                let e = spec_dec_entries(next_suffix, (k - 1) as nat)->Err_0;
                assert(spec_dec_entries(s, k) == Err::<(Seq<(u64, CfgVal)>, int), DecodeError>(e));
            }
        }
        pos = pos + u1 + u2;
        i = i + 1;
    }
    if pos != bytes.len() {
        return Err(DecodeError::TrailingData);
    }
    proof {
        assert(spec_dec_entries(bytes@.skip(pos as int), 0) == Ok::<
            (Seq<(u64, CfgVal)>, int),
            DecodeError,
        >((Seq::<(u64, CfgVal)>::empty(), 0)));
        assert(entries_view(entries@) + Seq::<(u64, CfgVal)>::empty() =~= entries_view(entries@));
    }
    Ok(Config { entries })
}

/// Appends the shortest header encoding `major` and `arg` to `out`.
pub fn encode_head(major: u8, arg: u64, out: &mut Vec<u8>)
    requires
        major < 8,
    ensures
        final(out)@ == old(out)@ + spec_enc_head(major, arg),
{
    if arg < 24 {
        out.push(major * 32 + (arg as u8));
        proof {
            assert(out@ =~= old(out)@ + spec_enc_head(major, arg));
        }
    } else if arg < 0x100 {
        out.push(major * 32 + 24);
        out.push(arg as u8);
        proof {
            assert(out@ =~= old(out)@ + spec_enc_head(major, arg));
        }
    } else if arg < 0x10000 {
        out.push(major * 32 + 25);
        out.push((arg / 0x100) as u8);
        out.push((arg % 0x100) as u8);
        proof {
            assert(out@ =~= old(out)@ + spec_enc_head(major, arg));
        }
    } else if arg < 0x100000000 {
        out.push(major * 32 + 26);
        out.push((arg / 0x1000000) as u8);
        out.push(((arg / 0x10000) % 0x100) as u8);
        out.push(((arg / 0x100) % 0x100) as u8);
        out.push((arg % 0x100) as u8);
        proof {
            assert(out@ =~= old(out)@ + spec_enc_head(major, arg));
        }
    } else {
        out.push(major * 32 + 27);
        out.push((arg / 0x100000000000000) as u8);
        out.push(((arg / 0x1000000000000) % 0x100) as u8);
        out.push(((arg / 0x10000000000) % 0x100) as u8);
        out.push(((arg / 0x100000000) % 0x100) as u8);
        out.push(((arg / 0x1000000) % 0x100) as u8);
        out.push(((arg / 0x10000) % 0x100) as u8);
        out.push(((arg / 0x100) % 0x100) as u8);
        out.push((arg % 0x100) as u8);
        proof {
            assert(out@ =~= old(out)@ + spec_enc_head(major, arg));
        }
    }
}

/// Appends the encoding of one scalar to `out`.
pub fn encode_scalar(v: &CfgScalar, out: &mut Vec<u8>)
    ensures
        final(out)@ == old(out)@ + spec_enc_scalar(v@),
{
    match v {
        CfgScalar::Null => encode_head(7, 22, out),
        CfgScalar::Bool(b) => {
            if *b {
                encode_head(7, 21, out);
            } else {
                encode_head(7, 20, out);
            }
        },
        CfgScalar::Uint(n) => encode_head(0, *n, out),
        CfgScalar::Nint(n) => encode_head(1, *n, out),
        CfgScalar::Bytes(p) => {
            encode_head(2, p.len() as u64, out);
            let ghost mid = out@;
            let mut j: usize = 0;
            while j < p.len()
                invariant
                    j <= p.len(),
                    out@ == mid + p@.subrange(0, j as int),
                decreases p.len() - j,
            {
                out.push(p[j]);
                proof {
                    assert(out@ =~= mid + p@.subrange(0, j as int + 1));
                }
                j = j + 1;
            }
            proof {
                assert(p@.subrange(0, p@.len() as int) =~= p@);
                assert(out@ =~= old(out)@ + spec_enc_scalar(v@));
            }
        },
    }
}

/// Appending one entry to a sequence appends that entry's encoding.
proof fn lemma_enc_entries_snoc(s: Seq<(u64, CfgVal)>, e: (u64, CfgVal))
    ensures
        spec_enc_entries(s.push(e)) == spec_enc_entries(s) + (spec_enc_head(0, e.0)
            + spec_enc_scalar(e.1)),
    decreases s.len(),
{
    let unit = spec_enc_head(0, e.0) + spec_enc_scalar(e.1);
    if s.len() == 0 {
        let dropped = s.push(e).drop_first();
        assert(s.push(e)[0] == e);
        assert(dropped =~= Seq::<(u64, CfgVal)>::empty());
        assert(spec_enc_entries(dropped) == Seq::<u8>::empty());
        assert(spec_enc_entries(s.push(e)) == unit + Seq::<u8>::empty());
        assert(unit + Seq::<u8>::empty() =~= unit);
        assert(spec_enc_entries(s) == Seq::<u8>::empty());
        assert(Seq::<u8>::empty() + unit =~= unit);
    } else {
        let first = spec_enc_head(0, s[0].0) + spec_enc_scalar(s[0].1);
        assert(s.push(e)[0] == s[0]);
        assert(s.push(e).drop_first() =~= s.drop_first().push(e));
        lemma_enc_entries_snoc(s.drop_first(), e);
        assert(spec_enc_entries(s.push(e)) == first + spec_enc_entries(s.drop_first().push(e)));
        assert(spec_enc_entries(s) == first + spec_enc_entries(s.drop_first()));
        assert(first + (spec_enc_entries(s.drop_first()) + unit) =~= (first + spec_enc_entries(
            s.drop_first(),
        )) + unit);
    }
}

/// Encodes a configuration. The result is exactly `spec_enc_config` of the
/// configuration's model.
pub fn encode_config(c: &Config) -> (r: Vec<u8>)
    ensures
        r@ == spec_enc_config(c@),
{
    let mut out: Vec<u8> = Vec::new();
    encode_head(5, c.entries.len() as u64, &mut out);
    let ghost head = out@;
    let mut i: usize = 0;
    while i < c.entries.len()
        invariant
            i <= c.entries.len(),
            out@ == head + spec_enc_entries(c@.take(i as int)),
            head == spec_enc_head(5, c.entries@.len() as u64),
        decreases c.entries.len() - i,
    {
        let entry = &c.entries[i];
        encode_head(0, entry.0, &mut out);
        encode_scalar(&entry.1, &mut out);
        proof {
            lemma_enc_entries_snoc(c@.take(i as int), c@[i as int]);
            assert(c@.take(i as int).push(c@[i as int]) =~= c@.take(i as int + 1));
            assert(c@[i as int] == (c.entries@[i as int].0, c.entries@[i as int].1@));
            assert(out@ =~= head + spec_enc_entries(c@.take(i as int + 1)));
        }
        i = i + 1;
    }
    proof {
        assert(c@.take(c@.len() as int) =~= c@);
        assert(out@ =~= spec_enc_config(c@));
    }
    out
}

/// Decoding a header off its own encoding yields the major type and
/// argument back, whatever follows.
pub proof fn lemma_head_round_trip(major: u8, arg: u64, rest: Seq<u8>)
    requires
        major < 8,
    ensures
        spec_dec_head(spec_enc_head(major, arg) + rest) == Ok::<(u8, u64, int), DecodeError>(
            (major, arg, spec_enc_head(major, arg).len() as int),
        ),
{
    reveal(spec_dec_head);
    let e = spec_enc_head(major, arg);
    let b = e + rest;
    if arg < 24 {
        assert(head_byte(major, arg as u8) == major * 32 + arg);
        lemma_fundamental_div_mod_converse(b[0] as int, 32, major as int, arg as int);
    } else if arg < 0x100 {
        assert(head_byte(major, 24) == major * 32 + 24);
        lemma_fundamental_div_mod_converse(b[0] as int, 32, major as int, 24);
    } else if arg < 0x10000 {
        assert(head_byte(major, 25) == major * 32 + 25);
        lemma_fundamental_div_mod_converse(b[0] as int, 32, major as int, 25);
        lemma_fundamental_div_mod(arg as int, 0x100);
        assert(arg / 0x100 < 0x100);
    } else if arg < 0x100000000 {
        assert(head_byte(major, 26) == major * 32 + 26);
        lemma_fundamental_div_mod_converse(b[0] as int, 32, major as int, 26);
        lemma_div_denominator(arg as int, 0x10000, 0x100);
        lemma_div_denominator(arg as int, 0x100, 0x100);
        lemma_fundamental_div_mod(arg as int / 0x10000, 0x100);
        lemma_fundamental_div_mod(arg as int / 0x100, 0x100);
        lemma_fundamental_div_mod(arg as int, 0x100);
        assert(arg / 0x1000000 < 0x100);
    } else {
        assert(head_byte(major, 27) == major * 32 + 27);
        lemma_fundamental_div_mod_converse(b[0] as int, 32, major as int, 27);
        lemma_div_denominator(arg as int, 0x100000000000000, 0x100);
        lemma_div_denominator(arg as int, 0x1000000000000, 0x100);
        lemma_div_denominator(arg as int, 0x10000000000, 0x100);
        lemma_div_denominator(arg as int, 0x100000000, 0x100);
        lemma_div_denominator(arg as int, 0x1000000, 0x100);
        lemma_div_denominator(arg as int, 0x10000, 0x100);
        lemma_div_denominator(arg as int, 0x100, 0x100);
        lemma_fundamental_div_mod(arg as int / 0x1000000000000, 0x100);
        lemma_fundamental_div_mod(arg as int / 0x10000000000, 0x100);
        lemma_fundamental_div_mod(arg as int / 0x100000000, 0x100);
        lemma_fundamental_div_mod(arg as int / 0x1000000, 0x100);
        lemma_fundamental_div_mod(arg as int / 0x10000, 0x100);
        lemma_fundamental_div_mod(arg as int / 0x100, 0x100);
        lemma_fundamental_div_mod(arg as int, 0x100);
        assert(arg / 0x100000000000000 < 0x100);
    }
}

/// Decoding a scalar off its own encoding yields the value back, whatever
/// follows.
pub proof fn lemma_scalar_round_trip(v: CfgVal, rest: Seq<u8>)
    requires
        val_fits(v),
    ensures
        spec_dec_scalar(spec_enc_scalar(v) + rest) == Ok::<(CfgVal, int), DecodeError>(
            (v, spec_enc_scalar(v).len() as int),
        ),
{
    reveal(spec_dec_scalar);
    match v {
        CfgVal::Null => lemma_head_round_trip(7, 22, rest),
        CfgVal::Bool(flag) => {
            if flag {
                lemma_head_round_trip(7, 21, rest);
            } else {
                lemma_head_round_trip(7, 20, rest);
            }
        },
        CfgVal::Uint(n) => lemma_head_round_trip(0, n, rest),
        CfgVal::Nint(n) => lemma_head_round_trip(1, n, rest),
        CfgVal::Bytes(p) => {
            let h = spec_enc_head(2, p.len() as u64);
            let b = spec_enc_scalar(v) + rest;
            assert(b =~= h + (p + rest));
            lemma_head_round_trip(2, p.len() as u64, p + rest);
            assert(b.subrange(h.len() as int, h.len() as int + p.len() as int) =~= p);
        },
    }
}

/// Decoding an entry sequence off its own encoding yields the entries back,
/// whatever follows.
pub proof fn lemma_entries_round_trip(s: Seq<(u64, CfgVal)>, rest: Seq<u8>)
    requires
        forall|i: int| 0 <= i < s.len() ==> val_fits(#[trigger] s[i].1),
    ensures
        spec_dec_entries(spec_enc_entries(s) + rest, s.len()) == Ok::<
            (Seq<(u64, CfgVal)>, int),
            DecodeError,
        >((s, spec_enc_entries(s).len() as int)),
    decreases s.len(),
{
    if s.len() == 0 {
        assert(s =~= Seq::<(u64, CfgVal)>::empty());
    } else {
        let key_enc = spec_enc_head(0, s[0].0);
        let val_enc = spec_enc_scalar(s[0].1);
        let tail_enc = spec_enc_entries(s.drop_first());
        let b = spec_enc_entries(s) + rest;
        assert(b =~= key_enc + (val_enc + (tail_enc + rest)));
        lemma_head_round_trip(0, s[0].0, val_enc + (tail_enc + rest));
        assert(b.skip(key_enc.len() as int) =~= val_enc + (tail_enc + rest));
        assert(val_fits(s[0].1));
        lemma_scalar_round_trip(s[0].1, tail_enc + rest);
        assert(b.skip(key_enc.len() as int + val_enc.len() as int) =~= tail_enc + rest);
        assert(forall|i: int|
            0 <= i < s.drop_first().len() ==> val_fits(#[trigger] s.drop_first()[i].1)) by {
            assert(forall|i: int|
                0 <= i < s.drop_first().len() ==> s.drop_first()[i] == s[i + 1]);
        }
        lemma_entries_round_trip(s.drop_first(), rest);
        assert(s[0] == (s[0].0, s[0].1));
        assert(seq![(s[0].0, s[0].1)] + s.drop_first() =~= s);
    }
}

/// Codec fidelity: decoding the encoding of any configuration that fits the
/// wire format's length fields yields that configuration back, exactly.
pub proof fn lemma_config_round_trip(s: Seq<(u64, CfgVal)>)
    requires
        config_fits(s),
    ensures
        spec_decode_config(spec_enc_config(s)) == Ok::<Seq<(u64, CfgVal)>, DecodeError>(s),
{
    let entries_enc = spec_enc_entries(s);
    let h = spec_enc_head(5, s.len() as u64);
    let b = spec_enc_config(s);
    lemma_head_round_trip(5, s.len() as u64, entries_enc);
    assert(b.skip(h.len() as int) =~= entries_enc);
    assert(entries_enc + Seq::<u8>::empty() =~= entries_enc);
    lemma_entries_round_trip(s, Seq::<u8>::empty());
    assert((s.len() as u64) as nat == s.len());
}

} // verus!
