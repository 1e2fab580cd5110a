//! Identifiers of graph nodes and notes, and the source that issues fresh ones.

use vstd::prelude::*;
use vstd::std_specs::cmp::PartialEqSpecImpl;

verus! {

/// An opaque token that names a node, a note or a symbol.  Its view is its text.
#[derive(Debug, Hash)]
pub struct Uid {
    text: String,
}

impl View for Uid {
    type V = Seq<char>;

    closed spec fn view(&self) -> Seq<char> {
        self.text@
    }
}

/// The text of the identifier that stands for a symbol no table knows.
pub open spec fn unknown_text() -> Seq<char> {
    "__unknown__"@
}

impl Uid {
    /// The identifier with the given text.
    pub fn new(text: String) -> (uid: Uid)
        ensures
            uid@ == text@,
    {
        Uid { text }
    }

    /// The identifier that a reference to an unknown symbol resolves to.
    pub fn unknown() -> (uid: Uid)
        ensures
            uid@ == unknown_text(),
    {
        Uid { text: "__unknown__".to_owned() }
    }

    /// The text of the identifier.
    pub fn as_str(&self) -> (text: &str)
        ensures
            text@ == self@,
    {
        self.text.as_str()
    }

    /// Gives up the identifier for its text.
    pub fn into_inner(self) -> (text: String)
        ensures
            text@ == self@,
    {
        self.text
    }
}

impl Clone for Uid {
    fn clone(&self) -> (copy: Uid)
        ensures
            copy@ == self@,
    {
        Uid { text: self.text.clone() }
    }
}

impl PartialEq for Uid {
    fn eq(&self, other: &Uid) -> (same: bool) {
        self.text == other.text
    }
}

impl Eq for Uid {}

impl PartialEqSpecImpl for Uid {
    open spec fn obeys_eq_spec() -> bool {
        true
    }

    open spec fn eq_spec(&self, other: &Uid) -> bool {
        self@ == other@
    }
}

/// The character that writes a decimal digit.
pub open spec fn digit_char(d: nat) -> char {
    if d == 0 {
        '0'
    } else if d == 1 {
        '1'
    } else if d == 2 {
        '2'
    } else if d == 3 {
        '3'
    } else if d == 4 {
        '4'
    } else if d == 5 {
        '5'
    } else if d == 6 {
        '6'
    } else if d == 7 {
        '7'
    } else if d == 8 {
        '8'
    } else {
        '9'
    }
}

/// The text of the identifier that a source issues after `n` earlier ones: the
/// decimal numeral of `n`.
pub open spec fn uid_text(n: nat) -> Seq<char>
    decreases n,
{
    if n < 10 {
        seq![digit_char(n)]
    } else {
        uid_text(n / 10).push(digit_char(n % 10))
    }
}

/// A source never issues the same text twice: identifiers issued after different
/// numbers of earlier ones differ.
pub proof fn lemma_uid_text_injective(a: nat, b: nat)
    requires
        uid_text(a) == uid_text(b),
    ensures
        a == b,
    decreases a,
{
    if a < 10 && b < 10 {
        assert(uid_text(a)[0] == digit_char(a));
        assert(uid_text(b)[0] == digit_char(b));
    } else if a < 10 {
        lemma_uid_text_len(b / 10);
        assert(uid_text(b).len() >= 2);
    } else if b < 10 {
        lemma_uid_text_len(a / 10);
        assert(uid_text(a).len() >= 2);
    } else {
        let ta = uid_text(a / 10);
        let tb = uid_text(b / 10);
        assert(uid_text(a).last() == digit_char(a % 10));
        assert(uid_text(b).last() == digit_char(b % 10));
        assert(ta =~= uid_text(a).drop_last());
        assert(tb =~= uid_text(b).drop_last());
        lemma_uid_text_injective(a / 10, b / 10);
    }
}

proof fn lemma_uid_text_len(n: nat)
    ensures
        uid_text(n).len() >= 1,
    decreases n,
{
    if n >= 10 {
        lemma_uid_text_len(n / 10);
    }
}

/// The decimal digits of a number, least significant first.
spec fn le_digits(n: nat) -> Seq<u8>
    decreases n,
{
    if n < 10 {
        seq![n as u8]
    } else {
        seq![(n % 10) as u8] + le_digits(n / 10)
    }
}

/// The successor of a number written as decimal digits, least significant first.
spec fn succ_digits(d: Seq<u8>) -> Seq<u8>
    decreases d.len(),
{
    if d.len() == 0 {
        seq![1u8]
    } else if d[0] < 9 {
        d.update(0, (d[0] + 1) as u8)
    } else {
        seq![0u8] + succ_digits(d.drop_first())
    }
}

spec fn all_decimal(d: Seq<u8>) -> bool {
    forall|i: int| 0 <= i < d.len() ==> d[i] <= 9
}

/// The numeral that digits spell when they are read from the last to the first.
spec fn digits_text(d: Seq<u8>) -> Seq<char> {
    Seq::new(d.len(), |i: int| digit_char(d[d.len() - 1 - i] as nat))
}

proof fn lemma_le_digits(n: nat)
    ensures
        all_decimal(le_digits(n)),
        le_digits(n).len() >= 1,
        le_digits(n + 1) == succ_digits(le_digits(n)),
        digits_text(le_digits(n)) == uid_text(n),
    decreases n,
{
    let d = le_digits(n);
    if n < 10 {
        assert(digits_text(d) =~= uid_text(n));
        if n < 9 {
            assert(le_digits(n + 1) =~= succ_digits(d));
        } else {
            assert(d =~= seq![9u8]);
            assert(d.drop_first() =~= Seq::<u8>::empty());
            assert(succ_digits(d.drop_first()) =~= seq![1u8]);
            assert(succ_digits(d) == seq![0u8] + succ_digits(d.drop_first()));
            assert(le_digits(1) =~= seq![1u8]);
            assert(le_digits(10) =~= seq![0u8] + le_digits(1));
        }
    } else {
        let rest = le_digits(n / 10);
        lemma_le_digits(n / 10);
        assert(d == seq![(n % 10) as u8] + rest);
        assert(d.drop_first() =~= rest);
        assert forall|i: int| 0 <= i < d.len() implies d[i] <= 9 by {
            if i > 0 {
                assert(d[i] == rest[i - 1]);
            }
        }
        assert(digits_text(d) =~= digits_text(rest).push(digit_char(n % 10))) by {
            assert forall|i: int| 0 <= i < d.len() implies digits_text(d)[i] == digits_text(
                rest,
            ).push(digit_char(n % 10))[i] by {
                if i < rest.len() {
                    assert(d[d.len() - 1 - i] == rest[rest.len() - 1 - i]);
                }
            }
        }
        if n % 10 < 9 {
            assert((n + 1) / 10 == n / 10 && (n + 1) % 10 == n % 10 + 1);
            assert(le_digits(n + 1) =~= succ_digits(d));
        } else {
            assert((n + 1) / 10 == n / 10 + 1 && (n + 1) % 10 == 0);
            assert(le_digits(n + 1) == seq![0u8] + le_digits(n / 10 + 1));
            assert(succ_digits(d) == seq![0u8] + succ_digits(rest));
        }
    }
}

fn digit_str(d: u8) -> (s: &'static str)
    requires
        d <= 9,
    ensures
        s@ == seq![digit_char(d as nat)],
{
    proof {
        reveal_strlit("0");
        reveal_strlit("1");
        reveal_strlit("2");
        reveal_strlit("3");
        reveal_strlit("4");
        reveal_strlit("5");
        reveal_strlit("6");
        reveal_strlit("7");
        reveal_strlit("8");
        reveal_strlit("9");
    }
    let s = if d == 0 {
        "0"
    } else if d == 1 {
        "1"
    } else if d == 2 {
        "2"
    } else if d == 3 {
        "3"
    } else if d == 4 {
        "4"
    } else if d == 5 {
        "5"
    } else if d == 6 {
        "6"
    } else if d == 7 {
        "7"
    } else if d == 8 {
        "8"
    } else {
        "9"
    };
    assert(s@ =~= seq![digit_char(d as nat)]);
    s
}

fn render_digits(digits: &Vec<u8>) -> (text: String)
    requires
        all_decimal(digits@),
    ensures
        text@ == digits_text(digits@),
{
    let mut text = String::new();
    let mut i: usize = digits.len();
    while i > 0
        invariant
            0 <= i <= digits.len(),
            all_decimal(digits@),
            text@ == digits_text(digits@).subrange(0, digits.len() - i),
        decreases i,
    {
        i = i - 1;
        text.append(digit_str(digits[i]));
        assert(text@ =~= digits_text(digits@).subrange(0, digits.len() - i));
    }
    assert(digits_text(digits@).subrange(0, digits.len() as int) =~= digits_text(digits@));
    text
}

fn next_digits(digits: &Vec<u8>) -> (next: Vec<u8>)
    requires
        all_decimal(digits@),
    ensures
        next@ == succ_digits(digits@),
{
    let mut next: Vec<u8> = Vec::new();
    let mut carry = true;
    let mut i: usize = 0;
    proof {
        assert(digits@.subrange(0, digits.len() as int) =~= digits@);
        assert(next@ + succ_digits(digits@) =~= succ_digits(digits@));
    }
    while i < digits.len()
        invariant
            0 <= i <= digits.len(),
            all_decimal(digits@),
            carry ==> succ_digits(digits@) == next@ + succ_digits(
                digits@.subrange(i as int, digits.len() as int),
            ),
            !carry ==> succ_digits(digits@) == next@ + digits@.subrange(
                i as int,
                digits.len() as int,
            ),
        decreases digits.len() - i,
    {
        let ghost tail = digits@.subrange(i as int, digits.len() as int);
        let ghost rest = digits@.subrange(i + 1, digits.len() as int);
        let ghost before = next@;
        proof {
            assert(tail.drop_first() =~= rest);
            assert(tail[0] == digits@[i as int]);
        }
        let d = digits[i];
        if !carry {
            next.push(d);
            assert(next@ + rest =~= before + tail);
        } else if d == 9 {
            next.push(0);
            assert(next@ + succ_digits(rest) =~= before + (seq![0u8] + succ_digits(rest)));
        } else {
            next.push(d + 1);
            carry = false;
            assert(next@ + rest =~= before + tail.update(0, (d + 1) as u8));
        }
        i = i + 1;
    }
    proof {
        assert(digits@.subrange(i as int, digits.len() as int) =~= Seq::<u8>::empty());
    }
    if carry {
        next.push(1);
        assert(next@ =~= succ_digits(digits@));
    } else {
        assert(next@ =~= succ_digits(digits@));
    }
    next
}

/// Issues identifiers that are pairwise different: the decimal numerals of 0, 1,
/// 2 and so on, without end.  Its view is the number of identifiers issued so far.
pub struct UidSource {
    digits: Vec<u8>,
    issued: Ghost<nat>,
}

impl View for UidSource {
    type V = nat;

    closed spec fn view(&self) -> nat {
        self.issued@
    }
}

impl UidSource {
    #[verifier::type_invariant]
    spec fn consistent(self) -> bool {
        self.digits@ == le_digits(self.issued@)
    }

    /// A source that has issued nothing yet.
    pub fn new() -> (source: UidSource)
        ensures
            source@ == 0,
    {
        let mut digits: Vec<u8> = Vec::new();
        digits.push(0);
        assert(digits@ =~= le_digits(0));
        UidSource { digits, issued: Ghost(0) }
    }

    /// Issues the next identifier.
    pub fn generate(&mut self) -> (uid: Uid)
        ensures
            uid@ == uid_text(old(self)@),
            final(self)@ == old(self)@ + 1,
    {
        proof {
            use_type_invariant(&*self);
            lemma_le_digits(self.issued@);
        }
        let text = render_digits(&self.digits);
        let digits = next_digits(&self.digits);
        let ghost issued = self.issued@ + 1;
        *self = UidSource { digits, issued: Ghost(issued) };
        Uid { text }
    }
}

/// Whether a source that has issued `issued` identifiers may still issue `uid`.
pub open spec fn reserved(uid: Seq<char>, issued: nat) -> bool {
    exists|n: nat| n >= issued && uid == uid_text(n)
}

} // verus!
