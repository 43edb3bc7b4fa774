//! pkt-line framing: every line on the wire is prefixed with four lowercase
//! hex digits giving the byte length of prefix plus payload; `0000` is the
//! flush marker that ends a section and is never a data line.
use vstd::prelude::*;
use vstd::string::StringExecFns;
use crate::errors::GitServiceError;

verus! {

/// The lowercase hex digit for a value below 16.
pub open spec fn hex_digit_char(d: nat) -> char {
    if d == 0 {
        '0'
    } else if d == 1 {
        '1'
    } else if d == 2 {
        '2'
    } else if d == 3 {
        '3'
    } else if d == 4 {
        '4'
    } else if d == 5 {
        '5'
    } else if d == 6 {
        '6'
    } else if d == 7 {
        '7'
    } else if d == 8 {
        '8'
    } else if d == 9 {
        '9'
    } else if d == 10 {
        'a'
    } else if d == 11 {
        'b'
    } else if d == 12 {
        'c'
    } else if d == 13 {
        'd'
    } else if d == 14 {
        'e'
    } else {
        'f'
    }
}

/// Lowercase hex digits of `n`, most significant first; empty for zero.
pub open spec fn hex_rep(n: nat) -> Seq<char>
    decreases n,
{
    if n == 0 {
        Seq::empty()
    } else {
        hex_rep(n / 16).push(hex_digit_char(n % 16))
    }
}

/// `s` left-padded with `'0'` up to a width of four, as `{:04x}` pads.
pub open spec fn pad4(s: Seq<char>) -> Seq<char>
    decreases 4 - s.len(),
{
    if s.len() >= 4 {
        s
    } else {
        pad4(seq!['0'].add(s))
    }
}

/// The pkt-line length prefix for a total length of `n` bytes.
pub open spec fn pkt_prefix(n: nat) -> Seq<char> {
    pad4(hex_rep(n))
}

/// A single lowercase hex digit as a one-character string slice.
fn hex_digit_str(d: u8) -> (r: &'static str)
    requires
        d < 16,
    ensures
        r@ == seq![hex_digit_char(d as nat)],
{
    let r = if d == 0 {
        "0"
    } else if d == 1 {
        "1"
    } else if d == 2 {
        "2"
    } else if d == 3 {
        "3"
    } else if d == 4 {
        "4"
    } else if d == 5 {
        "5"
    } else if d == 6 {
        "6"
    } else if d == 7 {
        "7"
    } else if d == 8 {
        "8"
    } else if d == 9 {
        "9"
    } else if d == 10 {
        "a"
    } else if d == 11 {
        "b"
    } else if d == 12 {
        "c"
    } else if d == 13 {
        "d"
    } else if d == 14 {
        "e"
    } else {
        "f"
    };
    proof {
        reveal_strlit("0");
        reveal_strlit("1");
        reveal_strlit("2");
        reveal_strlit("3");
        reveal_strlit("4");
        reveal_strlit("5");
        reveal_strlit("6");
        reveal_strlit("7");
        reveal_strlit("8");
        reveal_strlit("9");
        reveal_strlit("a");
        reveal_strlit("b");
        reveal_strlit("c");
        reveal_strlit("d");
        reveal_strlit("e");
        reveal_strlit("f");
        assert(r@ =~= seq![hex_digit_char(d as nat)]);
    }
    r
}

/// The digits collected so far, read as hex characters.
spec fn digit_chars(digits: Seq<u8>) -> Seq<char> {
    Seq::new(digits.len(), |i: int| hex_digit_char(digits[i] as nat))
}

/// Renders `n` the way `{:04x}` does: lowercase hex, zero-padded to at
/// least four digits.
pub fn format_pkt_prefix(n: usize) -> (r: String)
    ensures
        r@ == pkt_prefix(n as nat),
{
    let mut digits: Vec<u8> = Vec::new();
    let mut m: usize = n;
    proof {
        assert(hex_rep(n as nat) =~= hex_rep(n as nat).add(digit_chars(digits@)));
    }
    while m > 0
        invariant
            hex_rep(n as nat) == hex_rep(m as nat).add(digit_chars(digits@)),
            forall|i: int| 0 <= i < digits@.len() ==> digits@[i] < 16,
        decreases m,
    {
        let ghost pre_digits = digits@;
        let ghost pre_m = m as nat;
        let d: u8 = (m % 16) as u8;
        digits.insert(0, d);
        m = m / 16;
        proof {
            assert(digits@ =~= seq![d].add(pre_digits));
            assert(hex_rep(pre_m) == hex_rep(pre_m / 16).push(hex_digit_char(pre_m % 16)));
            assert(digit_chars(digits@) =~= seq![hex_digit_char(d as nat)].add(
                digit_chars(pre_digits),
            ));
            assert(hex_rep(n as nat) =~= hex_rep(m as nat).add(digit_chars(digits@)));
        }
    }
    assert(hex_rep(n as nat) =~= digit_chars(digits@));
    let mut s = String::new();
    let mut pad: usize = 0;
    let needed: usize = if digits.len() >= 4 {
        0
    } else {
        4 - digits.len()
    };
    while pad < needed
        invariant
            needed <= 4,
            pad <= needed,
            s@ == Seq::new(pad as nat, |i: int| '0'),
        decreases needed - pad,
    {
        s.append("0");
        proof {
            reveal_strlit("0");
            assert(s@ =~= Seq::new((pad + 1) as nat, |i: int| '0'));
        }
        pad = pad + 1;
    }
    let mut j: usize = 0;
    while j < digits.len()
        invariant
            forall|i: int| 0 <= i < digits@.len() ==> digits@[i] < 16,
            j <= digits@.len(),
            s@ == Seq::new(needed as nat, |i: int| '0').add(digit_chars(digits@).take(j as int)),
        decreases digits@.len() - j,
    {
        let d = digits[j];
        s.append(hex_digit_str(d));
        j = j + 1;
        proof {
            assert(s@ =~= Seq::new(needed as nat, |i: int| '0').add(
                digit_chars(digits@).take(j as int),
            ));
        }
    }
    proof {
        assert(digit_chars(digits@).take(digits@.len() as int) =~= digit_chars(digits@));
        lemma_zeros_pad(n as nat, digit_chars(digits@), needed as nat);
    }
    s
}

/// Padding the hex digits with the right number of zeros yields `pkt_prefix`.
proof fn lemma_zeros_pad(n: nat, rep: Seq<char>, needed: nat)
    requires
        rep == hex_rep(n),
        needed == if rep.len() >= 4 { 0nat } else { (4 - rep.len()) as nat },
    ensures
        Seq::new(needed, |i: int| '0').add(rep) =~= pkt_prefix(n),
{
    lemma_pad4_steps(rep, needed);
    assert(pkt_prefix(n) == pad4(rep));
}

/// The flush marker as raw bytes.
pub open spec fn flush_bytes() -> Seq<u8> {
    seq![48u8, 48u8, 48u8, 48u8]
}

/// The byte stream ends with a flush marker.
pub open spec fn ends_with_flush(b: Seq<u8>) -> bool {
    b.len() >= 4 && b.subrange(b.len() - 4, b.len() as int) == flush_bytes()
}

/// Finishes a negotiation reply: a failed delegate run becomes a
/// `SubprocessFailure` carrying its diagnostic text; a successful one is
/// returned as is, with a flush marker appended if the output does not
/// already end in one.
pub fn finish_upload_pack(success: bool, output: Vec<u8>, diagnostic: String) -> (r: Result<
    Vec<u8>,
    GitServiceError,
>)
    ensures
        success ==> (r matches Ok(v) && v@ == if ends_with_flush(output@) {
            output@
        } else {
            output@ + flush_bytes()
        }),
        !success ==> (r matches Err(e) && e matches GitServiceError::SubprocessFailure(d)
            && d@ == diagnostic@),
{
    if !success {
        return Err(GitServiceError::SubprocessFailure(diagnostic));
    }
    let n = output.len();
    let terminated = n >= 4 && output[n - 4] == 48 && output[n - 3] == 48 && output[n - 2] == 48
        && output[n - 1] == 48;
    proof {
        if terminated {
            assert(output@.subrange(output@.len() - 4, output@.len() as int) =~= flush_bytes());
        } else if output@.len() >= 4 {
            assert(output@.subrange(output@.len() - 4, output@.len() as int) != flush_bytes()) by {
                let tail = output@.subrange(output@.len() - 4, output@.len() as int);
                if tail == flush_bytes() {
                    assert(tail[0] == 48u8 && tail[1] == 48u8 && tail[2] == 48u8 && tail[3]
                        == 48u8);
                }
            }
        }
    }
    if terminated {
        Ok(output)
    } else {
        let ghost orig = output@;
        let mut out = output;
        out.push(48);
        out.push(48);
        out.push(48);
        out.push(48);
        proof {
            assert(out@ =~= orig + flush_bytes());
        }
        Ok(out)
    }
}

/// `pad4` prepends exactly `needed` zeros.
proof fn lemma_pad4_steps(rep: Seq<char>, needed: nat)
    requires
        needed == if rep.len() >= 4 { 0nat } else { (4 - rep.len()) as nat },
    ensures
        pad4(rep) =~= Seq::new(needed, |i: int| '0').add(rep),
    decreases needed,
{
    if needed == 0 {
        assert(pad4(rep) == rep);
        assert(Seq::new(0nat, |i: int| '0').add(rep) =~= rep);
    } else {
        let rep1 = seq!['0'].add(rep);
        assert(pad4(rep) == pad4(rep1));
        lemma_pad4_steps(rep1, (needed - 1) as nat);
        assert(Seq::new(needed, |i: int| '0').add(rep) =~= Seq::new(
            (needed - 1) as nat,
            |i: int| '0',
        ).add(rep1));
    }
}

} // verus!
