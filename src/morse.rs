use vstd::prelude::*;

verus! {

/// One element of an encoded Morse sequence.
#[derive(Clone, Copy, Debug, PartialEq, Eq, Structural)]
pub enum MorseSymbol {
    Dot,
    Dash,
    LetterSpace,
    WordSpace,
}

/// ASCII upper-casing of a single character; other characters are unchanged.
pub open spec fn ascii_upper(c: char) -> char {
    if 'a' <= c && c <= 'z' {
        ((c as u32) - 32) as char
    } else {
        c
    }
}

/// The symbol table: the primitives of each supported upper-case character.
pub open spec fn morse_table(c: char) -> Option<Seq<MorseSymbol>> {
    let dot = MorseSymbol::Dot;
    let dash = MorseSymbol::Dash;
    match c {
        '0' => Some(seq![dash, dash, dash, dash, dash]),
        '1' => Some(seq![dot, dash, dash, dash, dash]),
        '2' => Some(seq![dot, dot, dash, dash, dash]),
        '3' => Some(seq![dot, dot, dot, dash, dash]),
        '4' => Some(seq![dot, dot, dot, dot, dash]),
        '5' => Some(seq![dot, dot, dot, dot, dot]),
        '6' => Some(seq![dash, dot, dot, dot, dot]),
        '7' => Some(seq![dash, dash, dot, dot, dot]),
        '8' => Some(seq![dash, dash, dash, dot, dot]),
        '9' => Some(seq![dash, dash, dash, dash, dot]),
        'A' => Some(seq![dot, dash]),
        'B' => Some(seq![dash, dot, dot, dot]),
        'C' => Some(seq![dash, dot, dash, dot]),
        'D' => Some(seq![dash, dot, dot]),
        'E' => Some(seq![dot]),
        'F' => Some(seq![dot, dot, dash, dot]),
        'G' => Some(seq![dash, dash, dot]),
        'H' => Some(seq![dot, dot, dot, dot]),
        'I' => Some(seq![dot, dot]),
        'J' => Some(seq![dot, dash, dash, dash]),
        'K' => Some(seq![dash, dot, dash]),
        'L' => Some(seq![dot, dash, dot, dot]),
        'M' => Some(seq![dash, dash]),
        'N' => Some(seq![dash, dot]),
        'O' => Some(seq![dash, dash, dash]),
        'P' => Some(seq![dot, dash, dash, dot]),
        'Q' => Some(seq![dash, dash, dot, dash]),
        'R' => Some(seq![dot, dash, dot]),
        'S' => Some(seq![dot, dot, dot]),
        'T' => Some(seq![dash]),
        'U' => Some(seq![dot, dot, dash]),
        'V' => Some(seq![dot, dot, dot, dash]),
        'W' => Some(seq![dot, dash, dash]),
        'X' => Some(seq![dash, dot, dot, dash]),
        'Y' => Some(seq![dash, dot, dash, dash]),
        'Z' => Some(seq![dash, dash, dot, dot]),
        ':' => Some(seq![dash, dash, dash, dot, dot, dot]),
        ' ' => Some(seq![MorseSymbol::WordSpace]),
        _ => None,
    }
}

/// A character is supported when its upper-case form is in the symbol table.
pub open spec fn is_supported(c: char) -> bool {
    morse_table(ascii_upper(c)) is Some
}

/// ASCII upper-casing of one character.
fn to_ascii_upper(c: char) -> (r: char)
    ensures
        r == ascii_upper(c),
{
    if 'a' <= c && c <= 'z' {
        let code: u32 = c as u32;
        ((code - 32) as u8) as char
    } else {
        c
    }
}

/// The primitives of one character, looked up after ASCII upper-casing;
/// `None` for a character outside the table.
pub fn char_to_morse(c: char) -> (r: Option<Vec<MorseSymbol>>)
    ensures
        match r {
            Some(v) => morse_table(ascii_upper(c)) == Some(v@),
            None => morse_table(ascii_upper(c)) is None,
        },
{
    let dot = MorseSymbol::Dot;
    let dash = MorseSymbol::Dash;
    let u = to_ascii_upper(c);
    match u {
        '0' => Some(vec![dash, dash, dash, dash, dash]),
        '1' => Some(vec![dot, dash, dash, dash, dash]),
        '2' => Some(vec![dot, dot, dash, dash, dash]),
        '3' => Some(vec![dot, dot, dot, dash, dash]),
        '4' => Some(vec![dot, dot, dot, dot, dash]),
        '5' => Some(vec![dot, dot, dot, dot, dot]),
        '6' => Some(vec![dash, dot, dot, dot, dot]),
        '7' => Some(vec![dash, dash, dot, dot, dot]),
        '8' => Some(vec![dash, dash, dash, dot, dot]),
        '9' => Some(vec![dash, dash, dash, dash, dot]),
        'A' => Some(vec![dot, dash]),
        'B' => Some(vec![dash, dot, dot, dot]),
        'C' => Some(vec![dash, dot, dash, dot]),
        'D' => Some(vec![dash, dot, dot]),
        'E' => Some(vec![dot]),
        'F' => Some(vec![dot, dot, dash, dot]),
        'G' => Some(vec![dash, dash, dot]),
        'H' => Some(vec![dot, dot, dot, dot]),
        'I' => Some(vec![dot, dot]),
        'J' => Some(vec![dot, dash, dash, dash]),
        'K' => Some(vec![dash, dot, dash]),
        'L' => Some(vec![dot, dash, dot, dot]),
        'M' => Some(vec![dash, dash]),
        'N' => Some(vec![dash, dot]),
        'O' => Some(vec![dash, dash, dash]),
        'P' => Some(vec![dot, dash, dash, dot]),
        'Q' => Some(vec![dash, dash, dot, dash]),
        'R' => Some(vec![dot, dash, dot]),
        'S' => Some(vec![dot, dot, dot]),
        'T' => Some(vec![dash]),
        'U' => Some(vec![dot, dot, dash]),
        'V' => Some(vec![dot, dot, dot, dash]),
        'W' => Some(vec![dot, dash, dash]),
        'X' => Some(vec![dash, dot, dot, dash]),
        'Y' => Some(vec![dash, dot, dash, dash]),
        'Z' => Some(vec![dash, dash, dot, dot]),
        ':' => Some(vec![dash, dash, dash, dot, dot, dot]),
        ' ' => Some(vec![MorseSymbol::WordSpace]),
        _ => None,
    }
}

/// What one character contributes to the encoding: its table entry, followed
/// by a letter gap when `gap_after` holds and the character is not a space.
pub open spec fn char_piece(c: char, gap_after: bool) -> Seq<MorseSymbol> {
    match morse_table(ascii_upper(c)) {
        Some(sy) => if gap_after && c != ' ' {
            sy.push(MorseSymbol::LetterSpace)
        } else {
            sy
        },
        None => Seq::empty(),
    }
}

/// Whether a letter gap may follow the character at `i` of `s`: only when a
/// next character exists and is not a space, whose word gap needs no other.
pub open spec fn gap_after(s: Seq<char>, i: int) -> bool {
    i + 1 < s.len() && s[i + 1] != ' '
}

/// The encoding of the first `n` characters of the input `s`.
pub open spec fn encode_prefix(s: Seq<char>, n: nat) -> Seq<MorseSymbol>
    decreases n,
{
    if n == 0 {
        Seq::empty()
    } else {
        encode_prefix(s, (n - 1) as nat) + char_piece(s[n - 1], gap_after(s, n - 1))
    }
}

/// The encoding of a whole input.
pub open spec fn encode(s: Seq<char>) -> Seq<MorseSymbol> {
    encode_prefix(s, s.len())
}

/// Encodes `text` left to right: a letter gap parts neighbouring non-space
/// characters, a space gives only its word gap, and unsupported characters
/// are dropped.
pub fn text_to_morse(text: &str) -> (r: Vec<MorseSymbol>)
    ensures
        r@ == encode(text@),
{
    let mut chars: Vec<char> = Vec::new();
    for c in it: text.chars()
        invariant
            it.seq() == text@,
            chars@ == it.seq().take(it.index() as int),
    {
        chars.push(c);
    }
    assert(chars@ =~= text@);
    let mut result: Vec<MorseSymbol> = Vec::new();
    let n: usize = chars.len();
    let mut i: usize = 0;
    while i < n
        invariant
            n == chars.len(),
            chars@ == text@,
            i <= n,
            result@ == encode_prefix(text@, i as nat),
        decreases n - i,
    {
        let c = chars[i];
        let ghost before = result@;
        match char_to_morse(c) {
            Some(symbols) => {
                let mut symbols = symbols;
                result.append(&mut symbols);
                if i + 1 < n && c != ' ' && chars[i + 1] != ' ' {
                    result.push(MorseSymbol::LetterSpace);
                }
            },
            None => {},
        }
        assert(result@ =~= before + char_piece(c, gap_after(text@, i as int)));
        i = i + 1;
    }
    result
}

/// The display glyphs of one primitive.
pub open spec fn glyph(s: MorseSymbol) -> Seq<char> {
    match s {
        MorseSymbol::Dot => seq!['\u{b7}'],
        MorseSymbol::Dash => seq!['\u{2212}'],
        MorseSymbol::LetterSpace => seq![' '],
        MorseSymbol::WordSpace => seq![' ', ' ', ' '],
    }
}

/// The glyphs of a sequence of primitives, concatenated in order.
pub open spec fn display_of(m: Seq<MorseSymbol>) -> Seq<char>
    decreases m.len(),
{
    if m.len() == 0 {
        Seq::empty()
    } else {
        display_of(m.drop_last()) + glyph(m.last())
    }
}

/// Renders primitives for display: a middle dot for a dot, a minus sign for
/// a dash, one space for a letter gap and three for a word gap.
pub fn morse_to_display_string(morse: &[MorseSymbol]) -> (r: String)
    ensures
        r@ == display_of(morse@),
{
    let mut out = String::new();
    let mut i: usize = 0;
    while i < morse.len()
        invariant
            i <= morse@.len(),
            out@ == display_of(morse@.take(i as int)),
        decreases morse@.len() - i,
    {
        let ghost before = out@;
        let s = morse[i];
        proof {
            reveal_strlit("\u{b7}");
            reveal_strlit("\u{2212}");
            reveal_strlit(" ");
            reveal_strlit("   ");
        }
        match s {
            MorseSymbol::Dot => out.append("\u{b7}"),
            MorseSymbol::Dash => out.append("\u{2212}"),
            MorseSymbol::LetterSpace => out.append(" "),
            MorseSymbol::WordSpace => out.append("   "),
        }
        assert(morse@.take(i + 1).drop_last() =~= morse@.take(i as int));
        assert(out@ =~= before + glyph(s));
        i = i + 1;
    }
    assert(morse@.take(morse@.len() as int) =~= morse@);
    out
}

/// A primitive that sounds a tone.
pub open spec fn is_tone(x: MorseSymbol) -> bool {
    x == MorseSymbol::Dot || x == MorseSymbol::Dash
}

/// How many times `x` occurs in `m`.
pub open spec fn count_symbol(m: Seq<MorseSymbol>, x: MorseSymbol) -> nat
    decreases m.len(),
{
    if m.len() == 0 {
        0
    } else {
        count_symbol(m.drop_last(), x) + if m.last() == x {
            1nat
        } else {
            0nat
        }
    }
}

/// How many of the neighbouring pairs `(i, i + 1)` with `i < n` of `s` are
/// both non-space characters.
pub open spec fn letter_pairs(s: Seq<char>, n: nat) -> nat
    decreases n,
{
    if n == 0 {
        0
    } else {
        letter_pairs(s, (n - 1) as nat) + if (n as int) < s.len() && s[n - 1] != ' ' && s[n as int]
            != ' ' {
            1nat
        } else {
            0nat
        }
    }
}

/// How many of the first `n` characters of `s` are spaces.
pub open spec fn space_count(s: Seq<char>, n: nat) -> nat
    decreases n,
{
    if n == 0 {
        0
    } else {
        space_count(s, (n - 1) as nat) + if s[n - 1] == ' ' {
            1nat
        } else {
            0nat
        }
    }
}

proof fn lemma_count_append(a: Seq<MorseSymbol>, b: Seq<MorseSymbol>, x: MorseSymbol)
    ensures
        count_symbol(a + b, x) == count_symbol(a, x) + count_symbol(b, x),
    decreases b.len(),
{
    if b.len() == 0 {
        assert(a + b =~= a);
    } else {
        lemma_count_append(a, b.drop_last(), x);
        assert((a + b).drop_last() =~= a + b.drop_last());
    }
}

proof fn lemma_tones_have_no_gap(m: Seq<MorseSymbol>, x: MorseSymbol)
    requires
        forall|i: int| 0 <= i < m.len() ==> is_tone(#[trigger] m[i]),
        !is_tone(x),
    ensures
        count_symbol(m, x) == 0,
    decreases m.len(),
{
    if m.len() > 0 {
        lemma_tones_have_no_gap(m.drop_last(), x);
    }
}

/// Every entry of the table is non-empty, and every entry but that of the
/// space holds tones only.
proof fn lemma_table_entries(u: char)
    requires
        morse_table(u) is Some,
    ensures
        morse_table(u)->0.len() > 0,
        u != ' ' ==> forall|i: int|
            0 <= i < morse_table(u)->0.len() ==> is_tone(#[trigger] morse_table(u)->0[i]),
        u == ' ' ==> morse_table(u)->0 == seq![MorseSymbol::WordSpace],
{
}

proof fn lemma_upper_space(c: char)
    ensures
        ascii_upper(c) == ' ' <==> c == ' ',
{
}

/// The gaps contributed by one supported character: the word gap of a space,
/// or a letter gap after any other character when one is asked for.
proof fn lemma_piece_counts(c: char, gap: bool)
    requires
        is_supported(c),
    ensures
        count_symbol(char_piece(c, gap), MorseSymbol::LetterSpace) == if c != ' ' && gap {
            1nat
        } else {
            0nat
        },
        count_symbol(char_piece(c, gap), MorseSymbol::WordSpace) == if c == ' ' {
            1nat
        } else {
            0nat
        },
{
    let u = ascii_upper(c);
    let sy = morse_table(u)->0;
    lemma_table_entries(u);
    lemma_upper_space(c);
    if c == ' ' {
        let w = seq![MorseSymbol::WordSpace];
        assert(char_piece(c, gap) == w);
        assert(w.drop_last() =~= Seq::<MorseSymbol>::empty());
        assert(count_symbol(w.drop_last(), MorseSymbol::LetterSpace) == 0);
        assert(count_symbol(w.drop_last(), MorseSymbol::WordSpace) == 0);
    } else {
        lemma_tones_have_no_gap(sy, MorseSymbol::LetterSpace);
        lemma_tones_have_no_gap(sy, MorseSymbol::WordSpace);
        if gap {
            let p = sy.push(MorseSymbol::LetterSpace);
            assert(p.drop_last() =~= sy);
            assert(count_symbol(p, MorseSymbol::LetterSpace) == count_symbol(
                sy,
                MorseSymbol::LetterSpace,
            ) + 1);
            assert(count_symbol(p, MorseSymbol::WordSpace) == count_symbol(
                sy,
                MorseSymbol::WordSpace,
            ));
        } else {
            assert(char_piece(c, gap) == sy);
        }
    }
}

proof fn lemma_prefix_counts(s: Seq<char>, n: nat)
    requires
        n <= s.len(),
        forall|i: int| 0 <= i < s.len() ==> is_supported(#[trigger] s[i]),
    ensures
        count_symbol(encode_prefix(s, n), MorseSymbol::LetterSpace) == letter_pairs(s, n),
        count_symbol(encode_prefix(s, n), MorseSymbol::WordSpace) == space_count(s, n),
    decreases n,
{
    if n > 0 {
        let n1 = (n - 1) as nat;
        let piece = char_piece(s[n1 as int], gap_after(s, n1 as int));
        lemma_prefix_counts(s, n1);
        lemma_piece_counts(s[n1 as int], gap_after(s, n1 as int));
        lemma_count_append(encode_prefix(s, n1), piece, MorseSymbol::LetterSpace);
        lemma_count_append(encode_prefix(s, n1), piece, MorseSymbol::WordSpace);
    }
}

/// A supported character on its own encodes to the table entry of its
/// upper-case form, with no gap after it.
pub proof fn lemma_single_char(c: char)
    requires
        is_supported(c),
    ensures
        encode(seq![c]) == morse_table(ascii_upper(c))->0,
{
    let s = seq![c];
    assert(s.len() == 1 && s[0] == c);
    assert(encode_prefix(s, 0) == Seq::<MorseSymbol>::empty());
    assert(encode(s) == encode_prefix(s, 0) + char_piece(c, false));
    assert(encode(s) =~= char_piece(c, false));
}

/// In a supported input, exactly one letter gap stands for each pair of
/// neighbouring non-space characters, and each space gives exactly one word
/// gap, which is the only separator it needs.
pub proof fn lemma_separator_count(s: Seq<char>)
    requires
        forall|i: int| 0 <= i < s.len() ==> is_supported(#[trigger] s[i]),
    ensures
        count_symbol(encode(s), MorseSymbol::LetterSpace) == letter_pairs(s, s.len()),
        count_symbol(encode(s), MorseSymbol::WordSpace) == space_count(s, s.len()),
{
    lemma_prefix_counts(s, s.len());
}

proof fn lemma_pairs_without_spaces(s: Seq<char>, n: nat)
    requires
        1 <= s.len(),
        n <= s.len(),
        forall|i: int| 0 <= i < s.len() ==> #[trigger] s[i] != ' ',
    ensures
        letter_pairs(s, n) == if n < s.len() {
            n
        } else {
            (n - 1) as nat
        },
        space_count(s, n) == 0,
    decreases n,
{
    if n > 0 {
        lemma_pairs_without_spaces(s, (n - 1) as nat);
    }
}

/// A supported input of two or more characters and no space encodes with one
/// letter gap between each pair of neighbours, one fewer than it has
/// characters, and no word gap.
pub proof fn lemma_separator_count_without_spaces(s: Seq<char>)
    requires
        s.len() >= 2,
        forall|i: int| 0 <= i < s.len() ==> is_supported(#[trigger] s[i]),
        forall|i: int| 0 <= i < s.len() ==> #[trigger] s[i] != ' ',
    ensures
        count_symbol(encode(s), MorseSymbol::LetterSpace) == s.len() - 1,
        count_symbol(encode(s), MorseSymbol::WordSpace) == 0,
{
    lemma_separator_count(s);
    lemma_pairs_without_spaces(s, s.len());
}

/// Every letter gap in `m` stands between two tones.
pub open spec fn letter_gaps_between_tones(m: Seq<MorseSymbol>) -> bool {
    forall|i: int|
        0 <= i < m.len() && #[trigger] m[i] == MorseSymbol::LetterSpace ==> 0 < i && i + 1
            < m.len() && is_tone(m[i - 1]) && is_tone(m[i + 1])
}

/// Letter gaps of the encoding of the first `n` characters: each comes after a
/// tone and, unless it ends the prefix, before one; one that ends the prefix
/// waits for a next character that is not a space.
spec fn prefix_gaps_placed(s: Seq<char>, n: nat) -> bool {
    let m = encode_prefix(s, n);
    forall|i: int|
        0 <= i < m.len() && #[trigger] m[i] == MorseSymbol::LetterSpace ==> {
            &&& 0 < i
            &&& is_tone(m[i - 1])
            &&& i + 1 < m.len() ==> is_tone(m[i + 1])
            &&& i + 1 == m.len() ==> (n as int) < s.len() && s[n as int] != ' '
        }
}

proof fn lemma_prefix_gaps_placed(s: Seq<char>, n: nat)
    requires
        n <= s.len(),
        forall|i: int| 0 <= i < s.len() ==> is_supported(#[trigger] s[i]),
    ensures
        prefix_gaps_placed(s, n),
    decreases n,
{
    if n > 0 {
        let n1 = (n - 1) as nat;
        lemma_prefix_gaps_placed(s, n1);
        let a = encode_prefix(s, n1);
        let c = s[n1 as int];
        let g = gap_after(s, n1 as int);
        let p = char_piece(c, g);
        let u = ascii_upper(c);
        assert(is_supported(c));
        lemma_table_entries(u);
        lemma_upper_space(c);
        let sy = morse_table(u)->0;
        let m = a + p;
        assert(encode_prefix(s, n) == m);
        assert forall|i: int|
            0 <= i < m.len() && #[trigger] m[i] == MorseSymbol::LetterSpace implies {
            &&& 0 < i
            &&& is_tone(m[i - 1])
            &&& i + 1 < m.len() ==> is_tone(m[i + 1])
            &&& i + 1 == m.len() ==> (n as int) < s.len() && s[n as int] != ' '
        } by {
            if i < a.len() {
                assert(m[i] == a[i]);
                assert(m[i - 1] == a[i - 1]);
                if i + 1 < a.len() {
                    assert(m[i + 1] == a[i + 1]);
                } else {
                    assert(c != ' ');
                    assert(p[0] == sy[0]);
                    assert(m[i + 1] == p[0]);
                }
            } else {
                let k = i - a.len();
                assert(m[i] == p[k]);
                if c == ' ' {
                    assert(p == seq![MorseSymbol::WordSpace]);
                } else if g {
                    assert(p == sy.push(MorseSymbol::LetterSpace));
                    if k < sy.len() {
                        assert(is_tone(sy[k]));
                    }
                    assert(k == sy.len());
                    assert(m[i - 1] == p[k - 1]);
                    assert(is_tone(sy[k - 1]));
                } else {
                    assert(p == sy);
                    assert(is_tone(sy[k]));
                }
            }
        }
    }
}

/// In a supported input a letter gap always stands between two tones: none
/// begins or ends the encoding, and none stands next to a word gap or to
/// another letter gap.
pub proof fn lemma_letter_gaps_between_tones(s: Seq<char>)
    requires
        forall|i: int| 0 <= i < s.len() ==> is_supported(#[trigger] s[i]),
    ensures
        letter_gaps_between_tones(encode(s)),
{
    lemma_prefix_gaps_placed(s, s.len());
}

/// Two supported non-space characters parted by a space encode as the first
/// one's entry, the word gap, and the second one's entry: no letter gap is
/// added on either side of the space.
pub proof fn lemma_space_between(a: char, b: char)
    requires
        is_supported(a),
        is_supported(b),
        a != ' ',
        b != ' ',
    ensures
        encode(seq![a, ' ', b]) == morse_table(ascii_upper(a))->0 + seq![MorseSymbol::WordSpace]
            + morse_table(ascii_upper(b))->0,
{
    let s = seq![a, ' ', b];
    assert(s[0] == a && s[1] == ' ' && s[2] == b && s.len() == 3);
    assert(!gap_after(s, 0) && !gap_after(s, 2));
    assert(char_piece(' ', gap_after(s, 1)) == seq![MorseSymbol::WordSpace]);
    assert(encode_prefix(s, 0) == Seq::<MorseSymbol>::empty());
    assert(encode_prefix(s, 1) == encode_prefix(s, 0) + char_piece(a, false));
    assert(encode_prefix(s, 2) == encode_prefix(s, 1) + char_piece(' ', gap_after(s, 1)));
    assert(encode_prefix(s, 3) == encode_prefix(s, 2) + char_piece(b, false));
    assert(encode(s) =~= morse_table(ascii_upper(a))->0 + seq![MorseSymbol::WordSpace]
        + morse_table(ascii_upper(b))->0);
}

} // verus!
