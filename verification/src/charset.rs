//! Charset construction: a pure, deterministic mapping from the generation
//! options to the ordered pool of candidate characters.

use vstd::prelude::*;

verus! {

/// Options controlling which character classes make up the pool.
///
/// `only_letters` overrides `no_numbers` and `no_symbols`: when it is set,
/// neither digits nor symbols are included whatever the other flags say.
#[derive(Clone, Copy, Debug, PartialEq, Eq, Structural)]
pub struct Options {
    pub length: usize,
    pub no_symbols: bool,
    pub no_numbers: bool,
    pub only_letters: bool,
}

/// The uppercase letters `A`..`Z`, as ASCII bytes, in order.
pub open spec fn upper_seq() -> Seq<u8> {
    Seq::new(26, |i: int| (65 + i) as u8)
}

/// The lowercase letters `a`..`z`, as ASCII bytes, in order.
pub open spec fn lower_seq() -> Seq<u8> {
    Seq::new(26, |i: int| (97 + i) as u8)
}

/// The digits `0`..`9`, as ASCII bytes, in order.
pub open spec fn digit_seq() -> Seq<u8> {
    Seq::new(10, |i: int| (48 + i) as u8)
}

/// The symbol class `!@#$%^&*()-_=+[]{};:,.<>?`, as ASCII bytes, in order.
pub open spec fn symbol_seq() -> Seq<u8> {
    seq![
        33u8, 64u8, 35u8, 36u8, 37u8, 94u8, 38u8, 42u8, 40u8, 41u8, 45u8, 95u8, 61u8,
        43u8, 91u8, 93u8, 123u8, 125u8, 59u8, 58u8, 44u8, 46u8, 60u8, 62u8, 63u8,
    ]
}

/// The charset a given set of options selects: always the letters, then the
/// digits unless excluded, then the symbols unless excluded, in that fixed
/// canonical order.
pub open spec fn charset_spec(o: Options) -> Seq<u8> {
    upper_seq() + lower_seq() + (if o.only_letters || o.no_numbers {
        Seq::<u8>::empty()
    } else {
        digit_seq()
    }) + (if o.only_letters || o.no_symbols {
        Seq::<u8>::empty()
    } else {
        symbol_seq()
    })
}

/// Appends the `count` consecutive ASCII bytes starting at `start`.
fn push_ascii_range(cs: &mut Vec<u8>, start: u8, count: u8)
    requires
        start + count <= 127,
    ensures
        final(cs)@ == old(cs)@ + Seq::new(count as nat, |i: int| (start + i) as u8),
{
    let ghost orig = cs@;
    let mut i: u8 = 0;
    while i < count
        invariant
            i <= count,
            start + count <= 127,
            cs@ == orig + Seq::new(i as nat, |j: int| (start + j) as u8),
        decreases count - i,
    {
        cs.push(start + i);
        i = i + 1;
        proof {
            assert(cs@ =~= orig + Seq::new(i as nat, |j: int| (start + j) as u8));
        }
    }
    proof {
        assert(cs@ =~= orig + Seq::new(count as nat, |j: int| (start + j) as u8));
    }
}

/// Appends the symbol class.
fn push_symbols(cs: &mut Vec<u8>)
    ensures
        final(cs)@ == old(cs)@ + symbol_seq(),
{
    let ghost orig = cs@;
    cs.push(33);
    cs.push(64);
    cs.push(35);
    cs.push(36);
    cs.push(37);
    cs.push(94);
    cs.push(38);
    cs.push(42);
    cs.push(40);
    cs.push(41);
    cs.push(45);
    cs.push(95);
    cs.push(61);
    cs.push(43);
    cs.push(91);
    cs.push(93);
    cs.push(123);
    cs.push(125);
    cs.push(59);
    cs.push(58);
    cs.push(44);
    cs.push(46);
    cs.push(60);
    cs.push(62);
    cs.push(63);
    proof {
        assert(cs@ =~= orig + symbol_seq());
    }
}

/// Whether a byte is an ASCII letter (uppercase or lowercase).
pub open spec fn is_letter(b: u8) -> bool {
    (65 <= b <= 90) || (97 <= b <= 122)
}

/// Whether a byte is an ASCII digit.
pub open spec fn is_digit_byte(b: u8) -> bool {
    48 <= b <= 57
}

/// Every symbol byte is printable ASCII and none of them is a digit.
pub proof fn lemma_symbol_bytes()
    ensures
        forall|i: int|
            0 <= i < symbol_seq().len() ==> 33 <= #[trigger] symbol_seq()[i] <= 125
                && !is_digit_byte(symbol_seq()[i]),
{
    assert forall|i: int|
        0 <= i < symbol_seq().len() implies 33 <= #[trigger] symbol_seq()[i] <= 125
        && !is_digit_byte(symbol_seq()[i]) by {
        assert(33 <= symbol_seq()[i] <= 125 && !is_digit_byte(symbol_seq()[i]));
    }
}

/// The charset always holds the 52 letters, and every byte in it is ASCII.
pub proof fn lemma_charset_wf(o: Options)
    ensures
        charset_spec(o).len() >= 52,
        forall|i: int| 0 <= i < charset_spec(o).len() ==> #[trigger] charset_spec(o)[i] < 128,
{
    lemma_symbol_bytes();
}

/// Law: charset construction is deterministic — equal options select equal
/// charsets, same characters in the same order.
pub proof fn lemma_build_deterministic(o1: Options, o2: Options)
    requires
        o1 == o2,
    ensures
        charset_spec(o1) == charset_spec(o2),
{
}

/// Law: with `only_letters` set the charset is exactly the letters — first
/// the uppercase, then the lowercase class — whatever the digit and symbol
/// flags say, and every character in it is a letter.
pub proof fn lemma_letters_only(o: Options)
    requires
        o.only_letters,
    ensures
        charset_spec(o) == upper_seq() + lower_seq(),
        forall|i: int| 0 <= i < charset_spec(o).len() ==> is_letter(#[trigger] charset_spec(o)[i]),
{
    assert(charset_spec(o) =~= upper_seq() + lower_seq());
}

/// Law: with `no_numbers` set and `only_letters` clear, the charset holds no
/// digit character, and it still ends with the symbol class unless
/// `no_symbols` excludes that too.
pub proof fn lemma_no_numbers(o: Options)
    requires
        o.no_numbers,
        !o.only_letters,
    ensures
        forall|i: int| 0 <= i < charset_spec(o).len() ==> !is_digit_byte(
            #[trigger] charset_spec(o)[i],
        ),
        !o.no_symbols ==> charset_spec(o) == upper_seq() + lower_seq() + symbol_seq(),
        o.no_symbols ==> charset_spec(o) == upper_seq() + lower_seq(),
{
    lemma_symbol_bytes();
    if o.no_symbols {
        assert(charset_spec(o) =~= upper_seq() + lower_seq());
    } else {
        assert(charset_spec(o) =~= upper_seq() + lower_seq() + symbol_seq());
    }
}

/// Builds the character pool the options select.
///
/// The result is a pure function of the options: uppercase letters, then
/// lowercase letters, then — unless `only_letters` is set — the digits
/// (unless `no_numbers`) and the symbols (unless `no_symbols`).
pub fn build(o: &Options) -> (r: Vec<u8>)
    ensures
        r@ == charset_spec(*o),
{
    let mut cs: Vec<u8> = Vec::new();
    push_ascii_range(&mut cs, 65, 26);
    push_ascii_range(&mut cs, 97, 26);
    if !o.only_letters {
        if !o.no_numbers {
            push_ascii_range(&mut cs, 48, 10);
        }
        if !o.no_symbols {
            push_symbols(&mut cs);
        }
    }
    proof {
        assert(cs@ =~= charset_spec(*o));
    }
    cs
}

} // verus!
