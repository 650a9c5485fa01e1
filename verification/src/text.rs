use vstd::prelude::*;
use vstd::utf8::encode_utf8;

verus! {

/// The character contents of a list of strings.
pub open spec fn string_views(v: Seq<String>) -> Seq<Seq<char>> {
    v.map_values(|s: String| s@)
}


/// Appends one character to a string (`String::push`).
#[verifier::external_body]
pub(crate) fn push_char(s: &mut String, c: char)
    ensures
        final(s)@ == old(s)@.push(c),
{
    s.push(c);
}

/// The characters of a string slice, in order.
pub fn to_chars(s: &str) -> (r: Vec<char>)
    ensures
        r@ == s@,
{
    let mut out: Vec<char> = Vec::new();
    for c in it: s.chars()
        invariant
            out@ == it.seq().take(it.index() as int),
    {
        out.push(c);
    }
    out
}

/// A string holding exactly the given characters.
pub fn from_chars(v: &Vec<char>) -> (r: String)
    ensures
        r@ == v@,
{
    let mut s = String::new();
    let mut i: usize = 0;
    while i < v.len()
        invariant
            i <= v.len(),
            s@ == v@.take(i as int),
        decreases v.len() - i,
    {
        push_char(&mut s, v[i]);
        assert(v@.take(i + 1) =~= v@.take(i as int).push(v@[i as int]));
        i = i + 1;
    }
    assert(v@.take(v.len() as int) =~= v@);
    s
}

/// Index just after the last newline that comes before position `k`, or 0.
pub open spec fn line_start(v: Seq<char>, k: int) -> int
    decreases k,
{
    if k <= 0 {
        0
    } else if v[k - 1] == '\n' {
        k
    } else {
        line_start(v, k - 1)
    }
}

/// Index of the first newline at or after position `k`, or the length of `v`.
pub open spec fn line_end(v: Seq<char>, k: int) -> int
    decreases v.len() - k,
{
    if k >= v.len() {
        v.len() as int
    } else if v[k] == '\n' {
        k
    } else {
        line_end(v, k + 1)
    }
}

/// The characters with `c` put in at position `k`.
pub open spec fn spec_insert(v: Seq<char>, k: int, c: char) -> Seq<char> {
    v.insert(k, c)
}

/// Single-buffer text input with a caret that always sits between two
/// characters. The caret is kept as a character index; byte offsets are
/// derived from the UTF-8 encoding of the text before it.
pub struct TextField {
    value: String,
    caret: usize,
}

impl View for TextField {
    type V = (Seq<char>, nat);

    closed spec fn view(&self) -> (Seq<char>, nat) {
        (self.value@, self.caret as nat)
    }
}

impl TextField {
    #[verifier::type_invariant]
    closed spec fn caret_in_text(self) -> bool {
        self.caret <= self.value@.len()
    }

    /// The caret's position, in characters; it never stands past the end
    /// of the text.
    pub fn caret(&self) -> (r: usize)
        ensures
            r == self@.1,
            self@.1 <= self@.0.len(),
    {
        proof { use_type_invariant(self); }
        self.caret
    }

    pub fn from_initial(value: String) -> (r: Self)
        ensures
            r@ == (value@, value@.len()),
    {
        let n = to_chars(value.as_str()).len();
        TextField { value, caret: n }
    }

    pub fn as_str(&self) -> (r: &str)
        ensures
            r@ == self@.0,
    {
        self.value.as_str()
    }

    pub fn is_empty(&self) -> (r: bool)
        ensures
            r == (self@.0.len() == 0),
    {
        self.value.as_str().is_empty()
    }

    /// Length of the text in UTF-8 bytes.
    pub fn byte_len(&self) -> (r: usize)
        ensures
            r == encode_utf8(self@.0).len() as usize,
    {
        self.value.as_str().len()
    }

    /// Byte offset of the caret in the UTF-8 text.
    pub fn caret_byte(&self) -> (r: usize)
        ensures
            r == encode_utf8(self@.0.take(self@.1 as int)).len() as usize,
    {
        let head = self.head();
        head.as_str().len()
    }

    /// The text before the caret.
    pub fn head(&self) -> (r: String)
        ensures
            r@ == self@.0.take(self@.1 as int),
    {
        proof { use_type_invariant(self); }
        let chars = to_chars(self.value.as_str());
        let mut head: Vec<char> = Vec::new();
        let mut i: usize = 0;
        while i < self.caret
            invariant
                self.caret <= chars@.len(),
                chars@ == self.value@,
                i <= self.caret,
                head@ == chars@.take(i as int),
            decreases self.caret - i,
        {
            head.push(chars[i]);
            assert(chars@.take(i + 1) =~= chars@.take(i as int).push(chars@[i as int]));
            i = i + 1;
        }
        from_chars(&head)
    }

    pub fn clear(&mut self)
        ensures
            final(self)@ == (Seq::<char>::empty(), 0nat),
    {
        *self = TextField { value: String::new(), caret: 0 };
    }

    pub fn insert_char(&mut self, c: char)
        ensures
            final(self)@ == (spec_insert(old(self)@.0, old(self)@.1 as int, c), old(self)@.1 + 1),
    {
        proof { use_type_invariant(&*self); }
        let mut chars = to_chars(self.value.as_str());
        let k = self.caret;
        chars.insert(k, c);
        let n = chars.len();
        assert(k < n);
        let caret = k + 1;
        *self = TextField { value: from_chars(&chars), caret };
    }
    /// Char index of the character before the caret, if there is one.
    fn prev_boundary(&self) -> (r: Option<usize>)
        ensures
            r == (if self@.1 == 0 { None::<usize> } else { Some((self@.1 - 1) as usize) }),
    {
        if self.caret == 0 {
            return None;
        }
        Some(self.caret - 1)
    }

    /// Char index just past the character after the caret, if there is one.
    fn next_boundary(&self) -> (r: Option<usize>)
        ensures
            r is None <==> self@.1 >= self@.0.len(),
            r matches Some(j) ==> j == self@.1 + 1,
    {
        proof { use_type_invariant(self); }
        let n = to_chars(self.value.as_str()).len();
        if self.caret >= n {
            return None;
        }
        Some(self.caret + 1)
    }

    /// Removes the character before the caret.
    pub fn backspace(&mut self)
        ensures
            old(self)@.1 == 0 ==> final(self)@ == old(self)@,
            old(self)@.1 > 0 ==> final(self)@ == (
                old(self)@.0.remove(old(self)@.1 - 1),
                (old(self)@.1 - 1) as nat,
            ),
    {
        proof { use_type_invariant(&*self); }
        if let Some(prev) = self.prev_boundary() {
            let mut chars = to_chars(self.value.as_str());
            chars.remove(prev);
            *self = TextField { value: from_chars(&chars), caret: prev };
        }
    }

    /// Removes the character after the caret.
    pub fn delete_forward(&mut self)
        ensures
            old(self)@.1 >= old(self)@.0.len() ==> final(self)@ == old(self)@,
            old(self)@.1 < old(self)@.0.len() ==> final(self)@ == (
                old(self)@.0.remove(old(self)@.1 as int),
                old(self)@.1,
            ),
    {
        proof { use_type_invariant(&*self); }
        if let Some(_next) = self.next_boundary() {
            let mut chars = to_chars(self.value.as_str());
            let k = self.caret;
            chars.remove(k);
            *self = TextField { value: from_chars(&chars), caret: k };
        }
    }

    pub fn move_left(&mut self)
        ensures
            final(self)@.0 == old(self)@.0,
            final(self)@.1 == (if old(self)@.1 == 0 { 0 } else { (old(self)@.1 - 1) as nat }),
    {
        proof { use_type_invariant(&*self); }
        if let Some(prev) = self.prev_boundary() {
            self.caret = prev;
        }
    }

    pub fn move_right(&mut self)
        ensures
            final(self)@.0 == old(self)@.0,
            final(self)@.1 == (if old(self)@.1 >= old(self)@.0.len() {
                old(self)@.1
            } else {
                old(self)@.1 + 1
            }),
    {
        proof { use_type_invariant(&*self); }
        if let Some(next) = self.next_boundary() {
            self.caret = next;
        }
    }

    /// Moves the caret to the start of its line.
    pub fn move_home(&mut self)
        ensures
            final(self)@.0 == old(self)@.0,
            final(self)@.1 == line_start(old(self)@.0, old(self)@.1 as int),
    {
        proof { use_type_invariant(&*self); }
        let chars = to_chars(self.value.as_str());
        let mut i = self.caret;
        while i > 0 && chars[i - 1] != '\n'
            invariant
                chars@ == self.value@,
                i <= self.caret <= chars@.len(),
                line_start(chars@, self.caret as int) == line_start(chars@, i as int),
            decreases i,
        {
            i = i - 1;
        }
        self.caret = i;
    }

    /// Moves the caret to the end of its line.
    pub fn move_end(&mut self)
        ensures
            final(self)@.0 == old(self)@.0,
            final(self)@.1 == line_end(old(self)@.0, old(self)@.1 as int),
    {
        proof { use_type_invariant(&*self); }
        let chars = to_chars(self.value.as_str());
        let mut i = self.caret;
        while i < chars.len() && chars[i] != '\n'
            invariant
                chars@ == self.value@,
                self.caret <= i <= chars@.len(),
                line_end(chars@, self.caret as int) == line_end(chars@, i as int),
            decreases chars.len() - i,
        {
            i = i + 1;
        }
        self.caret = i;
    }
}

impl Default for TextField {
    fn default() -> (r: Self)
        ensures
            r@ == (Seq::<char>::empty(), 0nat),
    {
        TextField { value: String::new(), caret: 0 }
    }
}


/// Typing a character and then deleting it with backspace gives back the
/// text as it was, with the caret where it was.
pub proof fn law_backspace_undoes_insert(v: Seq<char>, k: nat, c: char)
    requires
        k <= v.len(),
    ensures
        spec_insert(v, k as int, c).remove(k as int) == v,
        ((k + 1) - 1) as nat == k,
{
    assert(spec_insert(v, k as int, c).remove(k as int) =~= v);
}

/// Moving the caret left and then right brings it back, unless it was
/// already at the start of the text.
pub proof fn law_move_right_undoes_move_left(v: Seq<char>, k: nat)
    requires
        0 < k <= v.len(),
    ensures
        ({
            let left: nat = (k - 1) as nat;
            (if left >= v.len() { left } else { left + 1 }) == k
        }),
{
}


/// Whether two strings hold the same characters.
pub fn str_eq(a: &str, b: &str) -> (r: bool)
    ensures
        r == (a@ == b@),
{
    let x = to_chars(a);
    let y = to_chars(b);
    if x.len() != y.len() {
        return false;
    }
    let mut i: usize = 0;
    while i < x.len()
        invariant
            x@ == a@,
            y@ == b@,
            x.len() == y.len(),
            i <= x.len(),
            forall|j: int| 0 <= j < i ==> x@[j] == y@[j],
        decreases x.len() - i,
    {
        if x[i] != y[i] {
            return false;
        }
        i = i + 1;
    }
    assert(x@ =~= y@);
    true
}

/// Whether `s` begins with `prefix`.
pub fn starts_with(s: &str, prefix: &str) -> (r: bool)
    ensures
        r == (prefix@.len() <= s@.len() && s@.take(prefix@.len() as int) == prefix@),
{
    let x = to_chars(s);
    let p = to_chars(prefix);
    if p.len() > x.len() {
        return false;
    }
    let mut i: usize = 0;
    while i < p.len()
        invariant
            x@ == s@,
            p@ == prefix@,
            p.len() <= x.len(),
            i <= p.len(),
            forall|j: int| 0 <= j < i ==> x@[j] == p@[j],
        decreases p.len() - i,
    {
        if x[i] != p[i] {
            assert(s@.take(prefix@.len() as int)[i as int] != prefix@[i as int]);
            return false;
        }
        i = i + 1;
    }
    assert(s@.take(prefix@.len() as int) =~= prefix@);
    true
}

/// Whether `s` ends with `suffix`.
pub fn ends_with(s: &str, suffix: &str) -> (r: bool)
    ensures
        r == (suffix@.len() <= s@.len() && s@.skip(s@.len() - suffix@.len()) == suffix@),
{
    let x = to_chars(s);
    let p = to_chars(suffix);
    if p.len() > x.len() {
        return false;
    }
    let off = x.len() - p.len();
    let mut i: usize = 0;
    while i < p.len()
        invariant
            x@ == s@,
            p@ == suffix@,
            off + p.len() == x.len(),
            i <= p.len(),
            forall|j: int| 0 <= j < i ==> x@[off + j] == p@[j],
        decreases p.len() - i,
    {
        if x[off + i] != p[i] {
            assert(s@.skip(s@.len() - suffix@.len())[i as int] != suffix@[i as int]);
            return false;
        }
        i = i + 1;
    }
    assert(s@.skip(s@.len() - suffix@.len()) =~= suffix@);
    true
}


/// The decimal digit for `d` (below ten).
pub open spec fn digit_char(d: nat) -> char {
    ((d + 48) as u32) as char
}

/// The decimal representation of `n`, without leading zeros.
pub open spec fn decimal(n: nat) -> Seq<char>
    decreases n,
{
    if n < 10 {
        seq![digit_char(n)]
    } else {
        decimal(n / 10).push(digit_char(n % 10))
    }
}

/// `n` written in decimal (as `format!("{n}")`).
pub fn u64_to_string(n: u64) -> (r: String)
    ensures
        r@ == decimal(n as nat),
{
    let mut digits: Vec<char> = Vec::new();
    let mut m: u64 = n;
    // digits holds the low digits of n in reverse order
    while m >= 10
        invariant
            decimal(n as nat) == decimal(m as nat) + digits@.reverse(),
        decreases m,
    {
        let d: u64 = m % 10;
        let c: char = ((d as u8) + 48) as char;
        assert(c == digit_char(d as nat));
        let ghost before = digits@;
        digits.push(c);
        assert(decimal(m as nat) == decimal((m / 10) as nat).push(c));
        assert(digits@.reverse() =~= seq![c] + before.reverse());
        assert(decimal((m / 10) as nat).push(c) + before.reverse() =~= decimal((m / 10) as nat)
            + digits@.reverse());
        m = m / 10;
    }
    let c0: char = ((m as u8) + 48) as char;
    assert(c0 == digit_char(m as nat));
    let mut out: Vec<char> = Vec::new();
    out.push(c0);
    let mut k: usize = digits.len();
    while k > 0
        invariant
            k <= digits.len(),
            out@ == seq![c0] + digits@.skip(k as int).reverse(),
        decreases k,
    {
        k = k - 1;
        let ghost before = out@;
        out.push(digits[k]);
        assert(digits@.skip(k as int).reverse() =~= digits@.skip(k + 1).reverse().push(digits@[k as int]));
        assert(out@ =~= seq![c0] + digits@.skip(k as int).reverse());
    }
    assert(digits@.skip(0) =~= digits@);
    assert(decimal(m as nat) =~= seq![c0]);
    from_chars(&out)
}

/// `n` written in decimal (as `format!("{n}")`).
pub fn usize_to_string(n: usize) -> (r: String)
    ensures
        r@ == decimal(n as nat),
{
    u64_to_string(n as u64)
}

/// `n` in decimal with a leading `-` when it is negative.
pub open spec fn signed_decimal(n: int) -> Seq<char> {
    if n < 0 {
        seq!['-'] + decimal((-n) as nat)
    } else {
        decimal(n as nat)
    }
}

/// `n` written in decimal (as `format!("{n}")`).
pub fn i64_to_string(n: i64) -> (r: String)
    ensures
        r@ == signed_decimal(n as int),
{
    if n < 0 {
        let m: u64 = ((-(n + 1)) as u64) + 1;
        let mut r = "-".to_owned();
        let digits = u64_to_string(m);
        r.append(digits.as_str());
        proof {
            reveal_strlit("-");
        }
        r
    } else {
        u64_to_string(n as u64)
    }
}

} // verus!
