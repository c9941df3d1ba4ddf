//! What the settings are, told from the texts in the environment.

use crate::config;
use crate::text;
use vstd::prelude::*;

verus! {

/// White space, as Unicode has it.
pub open spec fn blank(c: char) -> bool {
    let code = c as int;
    ||| 9 <= code <= 13
    ||| code == 32
    ||| code == 133
    ||| code == 160
    ||| code == 5760
    ||| 8192 <= code <= 8202
    ||| code == 8232
    ||| code == 8233
    ||| code == 8239
    ||| code == 8287
    ||| code == 12288
}

/// Whether a text is nothing but white space.
pub open spec fn all_blank(s: Seq<char>) -> bool {
    forall|i: int| 0 <= i < s.len() ==> blank(#[trigger] s[i])
}

/// A number in decimal, without leading zeros.
pub open spec fn numeral(n: nat) -> Seq<char>
    decreases n,
{
    let digit = (48 + n % 10) as char;
    if n < 10 {
        seq![digit]
    } else {
        numeral(n / 10).push(digit)
    }
}

/// Whether a text is one or more decimal digits.
pub open spec fn digits(s: Seq<char>) -> bool {
    s.len() > 0 && forall|i: int| 0 <= i < s.len() ==> '0' <= #[trigger] s[i] <= '9'
}

/// The number that decimal digits spell, leading zeros or not.
pub open spec fn value(s: Seq<char>) -> nat
    decreases s.len(),
{
    if s.len() == 0 {
        0
    } else {
        (10 * value(s.drop_last()) + (s.last() as int - 48)) as nat
    }
}

/// A text without the plus sign that it may start with.
pub open spec fn bare(s: Seq<char>) -> Seq<char> {
    if s.len() > 0 && s[0] == '+' {
        s.drop_first()
    } else {
        s
    }
}

/// Whether a text is a number: a plus sign or none, and decimal digits.
pub open spec fn plain(s: Seq<char>) -> bool {
    digits(bare(s))
}

/// Texts with a comma between each and the next.
pub open spec fn joined(parts: Seq<Seq<char>>) -> Seq<char>
    decreases parts.len(),
{
    if parts.len() == 0 {
        Seq::empty()
    } else if parts.len() == 1 {
        parts[0]
    } else {
        joined(parts.drop_last()).push(',') + parts.last()
    }
}

/// Whether no text has a comma in it.
pub open spec fn no_commas(parts: Seq<Seq<char>>) -> bool {
    forall|k: int| 0 <= k < parts.len() ==> !(#[trigger] parts[k]).contains(',')
}

/// Whether a variable is set, and entry `i` is the one that counts: the first of that name.
pub open spec fn set_at(vars: Seq<(String, String)>, i: int, key: Seq<char>) -> bool {
    &&& 0 <= i < vars.len()
    &&& vars[i].0@ == key
    &&& forall|j: int| 0 <= j < i ==> (#[trigger] vars[j]).0@ != key
}

proof fn lemma_lookup(vars: Seq<(String, String)>, i: int, key: Seq<char>)
    requires
        set_at(vars, i, key),
    ensures
        config::lookup(vars, key) == Some(vars[i].1@),
    decreases vars.len(),
{
    if i > 0 {
        assert(vars[0].0@ != key);
        let rest = vars.drop_first();
        assert forall|j: int| 0 <= j < i - 1 implies (#[trigger] rest[j]).0@ != key by {
            assert(rest[j] == vars[j + 1]);
        }
        lemma_lookup(rest, i - 1, key);
    }
}

/// A text setting is the text of its variable, as it is.
pub proof fn law_text_setting(
    vars: Seq<(String, String)>,
    i: int,
    key: Seq<char>,
    default: Seq<char>,
)
    requires
        set_at(vars, i, key),
    ensures
        config::text_var(vars, key, default) == vars[i].1@,
{
    lemma_lookup(vars, i, key);
}

/// A switch is on for `true`, `1` and `yes`, off for `false`, `0` and `no`, and at its default for
/// any other text.
pub proof fn law_switch_setting(
    vars: Seq<(String, String)>,
    i: int,
    key: Seq<char>,
    default: bool,
)
    requires
        set_at(vars, i, key),
    ensures
        ({
            let word = vars[i].1@;
            let on = word == "true"@ || word == "1"@ || word == "yes"@;
            let off = word == "false"@ || word == "0"@ || word == "no"@;
            &&& on ==> config::bool_var(vars, key, default)
            &&& off ==> !config::bool_var(vars, key, default)
            &&& !on && !off ==> config::bool_var(vars, key, default) == default
        }),
{
    lemma_lookup(vars, i, key);
    reveal_strlit("true");
    reveal_strlit("1");
    reveal_strlit("yes");
    reveal_strlit("false");
    reveal_strlit("0");
    reveal_strlit("no");
    assert("true"@.len() == 4 && "1"@.len() == 1 && "yes"@.len() == 3);
    assert("false"@.len() == 5 && "0"@.len() == 1 && "no"@.len() == 2);
    assert("1"@[0] == '1' && "0"@[0] == '0');
}

proof fn lemma_value(s: Seq<char>)
    ensures
        text::digits_value(s) == value(s),
    decreases s.len(),
{
    if s.len() > 0 {
        lemma_value(s.drop_last());
    }
}

proof fn lemma_number(s: Seq<char>, max: nat)
    ensures
        text::number(s, max) == if plain(s) && value(bare(s)) <= max {
            Some(value(bare(s)))
        } else {
            None
        },
{
    lemma_value(bare(s));
}

/// A text is read as a number if and only if it is a plus sign or none and decimal digits, and the
/// number is no greater than the bound. It is then read as the number that the digits spell.
pub proof fn law_numbers_are_read(s: Seq<char>, max: nat)
    ensures
        text::number(s, max) == if plain(s) && value(bare(s)) <= max {
            Some(value(bare(s)))
        } else {
            None
        },
{
    lemma_number(s, max);
}

/// A number setting is the number in its variable if that holds a number, and one that fits; and
/// else the default.
pub proof fn law_number_setting(
    vars: Seq<(String, String)>,
    i: int,
    key: Seq<char>,
    default: nat,
    max: nat,
)
    requires
        set_at(vars, i, key),
    ensures
        config::number_var(vars, key, default, max) == if plain(vars[i].1@) && value(
            bare(vars[i].1@),
        ) <= max {
            value(bare(vars[i].1@))
        } else {
            default
        },
{
    lemma_lookup(vars, i, key);
    lemma_number(vars[i].1@, max);
}

/// A number is spelled by its numeral.
pub proof fn law_numeral_spells(n: nat)
    ensures
        digits(numeral(n)),
        value(numeral(n)) == n,
        bare(numeral(n)) == numeral(n),
        text::decimal(n) == numeral(n),
    decreases n,
{
    let s = numeral(n);
    if n < 10 {
        assert(s.drop_last() =~= Seq::<char>::empty());
        assert(value(s.drop_last()) == 0);
    } else {
        law_numeral_spells(n / 10);
        assert(s.drop_last() =~= numeral(n / 10));
        assert forall|i: int| 0 <= i < s.len() implies '0' <= #[trigger] s[i] <= '9' by {
            if i < s.len() - 1 {
                assert(s[i] == numeral(n / 10)[i]);
            }
        }
    }
    assert('0' <= s[0] <= '9');
}

proof fn lemma_fields_single(s: Seq<char>)
    requires
        !s.contains(','),
    ensures
        text::fields(s) == seq![s],
    decreases s.len(),
{
    if s.len() > 0 {
        let front = s.drop_last();
        assert(s.last() != ',') by {
            assert(s[s.len() - 1] == s.last());
        }
        assert(!front.contains(',')) by {
            if front.contains(',') {
                let i = choose|i: int| 0 <= i < front.len() && front[i] == ',';
                assert(s[i] == ',');
            }
        }
        lemma_fields_single(front);
        assert(front.push(s.last()) =~= s);
        assert(text::fields(s) =~= seq![s]);
    } else {
        assert(s =~= Seq::<char>::empty());
    }
}

proof fn lemma_fields_push(s: Seq<char>, t: Seq<char>)
    requires
        !t.contains(','),
    ensures
        text::fields(s.push(',') + t) == text::fields(s).push(t),
    decreases t.len(),
{
    let all = s.push(',') + t;
    if t.len() == 0 {
        assert(all =~= s.push(','));
        assert(all.drop_last() =~= s);
        assert(t =~= Seq::<char>::empty());
    } else {
        let front = t.drop_last();
        assert(t.last() != ',') by {
            assert(t[t.len() - 1] == t.last());
        }
        assert(!front.contains(',')) by {
            if front.contains(',') {
                let i = choose|i: int| 0 <= i < front.len() && front[i] == ',';
                assert(t[i] == ',');
            }
        }
        lemma_fields_push(s, front);
        assert(all.drop_last() =~= s.push(',') + front);
        assert(all.last() == t.last());
        assert(front.push(t.last()) =~= t);
        let before = text::fields(s).push(front);
        assert(before.drop_last() =~= text::fields(s));
    }
}

proof fn lemma_fields(parts: Seq<Seq<char>>)
    requires
        parts.len() > 0,
        no_commas(parts),
    ensures
        text::fields(joined(parts)) == parts,
    decreases parts.len(),
{
    if parts.len() == 1 {
        lemma_fields_single(parts[0]);
        assert(parts =~= seq![parts[0]]);
    } else {
        let front = parts.drop_last();
        assert forall|k: int| 0 <= k < front.len() implies !(#[trigger] front[k]).contains(',') by {
            assert(front[k] == parts[k]);
        }
        assert(!parts[parts.len() - 1].contains(','));
        lemma_fields(front);
        lemma_fields_push(joined(front), parts.last());
        assert(front.push(parts.last()) =~= parts);
    }
}

/// The numbers of two rows of parts are those of the first and then those of the second.
proof fn lemma_numbers_of_two(a: Seq<Seq<char>>, b: Seq<Seq<char>>)
    ensures
        text::numbers(a + b) == text::numbers(a) + text::numbers(b),
    decreases b.len(),
{
    if b.len() == 0 {
        assert(a + b =~= a);
        assert(text::numbers(a) + text::numbers(b) =~= text::numbers(a));
    } else {
        assert((a + b).drop_last() =~= a + b.drop_last());
        lemma_numbers_of_two(a, b.drop_last());
        assert(text::numbers(a + b) =~= text::numbers(a) + text::numbers(b));
    }
}

proof fn lemma_blank(c: char)
    ensures
        text::white_space(c) == blank(c),
{
}

proof fn lemma_trim_start(pad: Seq<char>, s: Seq<char>)
    requires
        all_blank(pad),
        s.len() > 0,
        !blank(s[0]),
    ensures
        text::trim_start(pad + s) == s,
    decreases pad.len(),
{
    if pad.len() == 0 {
        assert(pad + s =~= s);
        lemma_blank(s[0]);
    } else {
        assert(blank(pad[0]));
        lemma_blank(pad[0]);
        assert((pad + s)[0] == pad[0]);
        assert((pad + s).drop_first() =~= pad.drop_first() + s);
        assert forall|i: int| 0 <= i < pad.drop_first().len() implies blank(
            #[trigger] pad.drop_first()[i],
        ) by {
            assert(pad.drop_first()[i] == pad[i + 1]);
        }
        lemma_trim_start(pad.drop_first(), s);
    }
}

proof fn lemma_trim_end(s: Seq<char>, pad: Seq<char>)
    requires
        all_blank(pad),
        s.len() > 0,
        !blank(s.last()),
    ensures
        text::trim_end(s + pad) == s,
    decreases pad.len(),
{
    if pad.len() == 0 {
        assert(s + pad =~= s);
        lemma_blank(s.last());
    } else {
        assert(blank(pad[pad.len() - 1]));
        lemma_blank(pad.last());
        assert((s + pad).last() == pad.last());
        assert((s + pad).drop_last() =~= s + pad.drop_last());
        assert forall|i: int| 0 <= i < pad.drop_last().len() implies blank(
            #[trigger] pad.drop_last()[i],
        ) by {
            assert(pad.drop_last()[i] == pad[i]);
        }
        lemma_trim_end(s, pad.drop_last());
    }
}

/// White space around a number does not matter.
proof fn lemma_trim(before: Seq<char>, s: Seq<char>, after: Seq<char>)
    requires
        all_blank(before),
        all_blank(after),
        plain(s),
    ensures
        text::trim(before + s + after) == s,
{
    assert(s.len() > 0);
    assert(!blank(s[0])) by {
        if s[0] != '+' {
            assert(bare(s)[0] == s[0]);
        }
    }
    assert(!blank(s.last())) by {
        assert(bare(s)[bare(s).len() - 1] == s.last());
    }
    assert(before + s + after =~= before + (s + after));
    assert((s + after)[0] == s[0]);
    lemma_trim_start(before, s + after);
    lemma_trim_end(s, after);
}

proof fn lemma_trim_start_parts(s: Seq<char>) -> (pad: Seq<char>)
    ensures
        all_blank(pad),
        pad + text::trim_start(s) == s,
    decreases s.len(),
{
    if s.len() > 0 && text::white_space(s[0]) {
        let rest = lemma_trim_start_parts(s.drop_first());
        lemma_blank(s[0]);
        let pad = seq![s[0]] + rest;
        assert(pad + text::trim_start(s) =~= s) by {
            assert(seq![s[0]] + s.drop_first() =~= s);
            assert(pad + text::trim_start(s) =~= seq![s[0]] + (rest + text::trim_start(s)));
        }
        pad
    } else {
        assert(Seq::<char>::empty() + s =~= s);
        Seq::empty()
    }
}

proof fn lemma_trim_end_parts(s: Seq<char>) -> (pad: Seq<char>)
    ensures
        all_blank(pad),
        text::trim_end(s) + pad == s,
    decreases s.len(),
{
    if s.len() > 0 && text::white_space(s.last()) {
        let rest = lemma_trim_end_parts(s.drop_last());
        lemma_blank(s.last());
        let pad = rest.push(s.last());
        assert(text::trim_end(s) + pad =~= s) by {
            assert(s.drop_last().push(s.last()) =~= s);
            assert(text::trim_end(s) + pad =~= (text::trim_end(s) + rest).push(s.last()));
        }
        pad
    } else {
        assert(s + Seq::<char>::empty() =~= s);
        Seq::empty()
    }
}

/// Whether a part of a list is a number with white space around it, or none.
pub open spec fn reads(part: Seq<char>, n: nat) -> bool {
    exists|before: Seq<char>, s: Seq<char>, after: Seq<char>|
        {
            &&& part == #[trigger] (before + s + after)
            &&& all_blank(before)
            &&& all_blank(after)
            &&& plain(s)
            &&& value(bare(s)) == n
        }
}

/// A part of a list adds the number that it is, if it is one and no greater than `u32::MAX`, and
/// else nothing.
pub proof fn law_part_of_a_list(part: Seq<char>)
    ensures
        forall|n: nat| #[trigger]
            reads(part, n) && n <= u32::MAX ==> text::numbers(seq![part]) == seq![n as u32],
        text::numbers(seq![part]).len() > 0 ==> text::numbers(seq![part]).len() == 1 && reads(
            part,
            text::numbers(seq![part])[0] as nat,
        ),
{
    reveal_with_fuel(text::numbers, 2);
    let parts = seq![part];
    assert(parts.drop_last() =~= Seq::<Seq<char>>::empty());
    assert(text::numbers(parts.drop_last()) =~= Seq::<u32>::empty());
    assert forall|n: nat| #[trigger] reads(part, n) && n <= u32::MAX implies text::numbers(parts)
        == seq![n as u32] by {
        let (before, s, after) = choose|before: Seq<char>, s: Seq<char>, after: Seq<char>|
            {
                &&& part == #[trigger] (before + s + after)
                &&& all_blank(before)
                &&& all_blank(after)
                &&& plain(s)
                &&& value(bare(s)) == n
            };
        lemma_trim(before, s, after);
        lemma_number(s, u32::MAX as nat);
        assert(text::numbers(parts) =~= seq![n as u32]);
    }
    if text::numbers(parts).len() > 0 {
        let s = text::trim(part);
        lemma_number(s, u32::MAX as nat);
        let before = lemma_trim_start_parts(part);
        let after = lemma_trim_end_parts(text::trim_start(part));
        assert(before + s + after =~= part);
        assert(reads(part, value(bare(s))));
    }
}

/// Each part of a list counts by itself: the numbers of a list are those of its first part, then
/// those of its second part, and so on. What one part is leaves the others as they are.
pub proof fn law_parts_count_by_themselves(
    a: Seq<Seq<char>>,
    part: Seq<char>,
    b: Seq<Seq<char>>,
)
    requires
        no_commas(a),
        no_commas(b),
        !part.contains(','),
    ensures
        text::numbers(text::fields(joined(a.push(part) + b))) == text::numbers(a) + text::numbers(
            seq![part],
        ) + text::numbers(b),
        a.len() > 0 ==> text::numbers(text::fields(joined(a))) == text::numbers(a),
{
    let all = a.push(part) + b;
    assert forall|k: int| 0 <= k < all.len() implies !(#[trigger] all[k]).contains(',') by {
        if k < a.len() {
            assert(all[k] == a[k]);
        } else if k == a.len() {
            assert(all[k] == part);
        } else {
            assert(all[k] == b[k - a.len() - 1]);
        }
    }
    lemma_fields(all);
    assert(a.push(part) =~= a + seq![part]);
    lemma_numbers_of_two(a + seq![part], b);
    lemma_numbers_of_two(a, seq![part]);
    if a.len() > 0 {
        lemma_fields(a);
    }
}

/// The parts of a list of numbers: numerals with something before and after each.
pub open spec fn padded(
    before: Seq<Seq<char>>,
    numbers: Seq<u32>,
    after: Seq<Seq<char>>,
) -> Seq<Seq<char>> {
    Seq::new(
        numbers.len(),
        |k: int| before[k] + numeral(numbers[k] as nat) + after[k],
    )
}

proof fn lemma_padded(before: Seq<Seq<char>>, numbers: Seq<u32>, after: Seq<Seq<char>>, n: nat)
    requires
        n <= numbers.len(),
        before.len() == numbers.len(),
        after.len() == numbers.len(),
        forall|k: int| 0 <= k < before.len() ==> all_blank(#[trigger] before[k]),
        forall|k: int| 0 <= k < after.len() ==> all_blank(#[trigger] after[k]),
    ensures
        no_commas(padded(before, numbers, after)),
        text::numbers(padded(before, numbers, after).take(n as int)) == numbers.take(n as int),
    decreases n,
{
    let parts = padded(before, numbers, after);
    assert forall|k: int| 0 <= k < parts.len() implies !(#[trigger] parts[k]).contains(',') by {
        let s = numeral(numbers[k] as nat);
        law_numeral_spells(numbers[k] as nat);
        assert(all_blank(before[k]) && all_blank(after[k]));
        assert(parts[k] == before[k] + s + after[k]);
        if parts[k].contains(',') {
            let i = choose|i: int| 0 <= i < parts[k].len() && parts[k][i] == ',';
            if i < before[k].len() {
                assert(blank(before[k][i]));
            } else if i < before[k].len() + s.len() {
                assert('0' <= s[i - before[k].len()] <= '9');
            } else {
                assert(blank(after[k][i - before[k].len() - s.len()]));
            }
        }
    }
    let head = parts.take(n as int);
    if n == 0 {
        assert(head =~= Seq::<Seq<char>>::empty());
        assert(numbers.take(0) =~= Seq::<u32>::empty());
        assert(text::numbers(head) =~= Seq::<u32>::empty());
    } else {
        lemma_padded(before, numbers, after, (n - 1) as nat);
        let s = numeral(numbers[n - 1] as nat);
        law_numeral_spells(numbers[n - 1] as nat);
        assert(all_blank(before[n - 1]) && all_blank(after[n - 1]));
        lemma_trim(before[n - 1], s, after[n - 1]);
        lemma_number(s, u32::MAX as nat);
        assert(head.drop_last() =~= parts.take(n - 1));
        assert(head.last() == before[n - 1] + s + after[n - 1]);
        assert(numbers.take(n as int) =~= numbers.take(n - 1).push(numbers[n - 1]));
    }
}

/// When a variable holds numbers in decimal with commas in between, and white space around each or
/// none, the setting is exactly these numbers, all of them and in order.
pub proof fn law_list_setting(
    vars: Seq<(String, String)>,
    i: int,
    key: Seq<char>,
    default: Seq<u32>,
    before: Seq<Seq<char>>,
    numbers: Seq<u32>,
    after: Seq<Seq<char>>,
)
    requires
        set_at(vars, i, key),
        numbers.len() > 0,
        before.len() == numbers.len(),
        after.len() == numbers.len(),
        forall|k: int| 0 <= k < before.len() ==> all_blank(#[trigger] before[k]),
        forall|k: int| 0 <= k < after.len() ==> all_blank(#[trigger] after[k]),
        vars[i].1@ == joined(padded(before, numbers, after)),
    ensures
        config::rates_var(vars, key, default) == numbers,
{
    let parts = padded(before, numbers, after);
    lemma_lookup(vars, i, key);
    lemma_padded(before, numbers, after, numbers.len());
    lemma_fields(parts);
    assert(parts.take(numbers.len() as int) =~= parts);
    assert(numbers.take(numbers.len() as int) =~= numbers);
}

/// A list setting is what the parts of its variable add, and the default if they add nothing.
pub proof fn law_list_setting_by_parts(
    vars: Seq<(String, String)>,
    i: int,
    key: Seq<char>,
    default: Seq<u32>,
    parts: Seq<Seq<char>>,
)
    requires
        set_at(vars, i, key),
        parts.len() > 0,
        no_commas(parts),
        vars[i].1@ == joined(parts),
    ensures
        config::rates_var(vars, key, default) == if text::numbers(parts).len() > 0 {
            text::numbers(parts)
        } else {
            default
        },
{
    lemma_lookup(vars, i, key);
    lemma_fields(parts);
}

/// White space is what Unicode calls so.
pub proof fn law_white_space(c: char)
    ensures
        text::white_space(c) == blank(c),
{
    lemma_blank(c);
}

} // verus!
