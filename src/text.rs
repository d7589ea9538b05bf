//! Text helpers shared by every statement family: joining fragments with a
//! separator and writing unsigned integers in decimal.
use vstd::prelude::*;

verus! {

/// The fragments of `items` with `sep` between each neighbouring pair.
pub open spec fn joined(items: Seq<Seq<char>>, sep: Seq<char>) -> Seq<char>
    decreases items.len(),
{
    if items.len() == 0 {
        Seq::empty()
    } else if items.len() == 1 {
        items[0]
    } else {
        joined(items.drop_last(), sep) + sep + items.last()
    }
}

/// The character views of a sequence of string slices.
pub open spec fn str_views(items: Seq<&str>) -> Seq<Seq<char>> {
    items.map_values(|s: &str| s@)
}

/// The character views of a sequence of owned strings.
pub open spec fn string_views(items: Seq<String>) -> Seq<Seq<char>> {
    items.map_values(|s: String| s@)
}

/// Appending one more item to a joined list adds the separator and the item.
pub proof fn lemma_joined_push(items: Seq<Seq<char>>, sep: Seq<char>, item: Seq<char>)
    ensures
        joined(items.push(item), sep) == if items.len() == 0 {
            item
        } else {
            joined(items, sep) + sep + item
        },
{
    assert(items.push(item).drop_last() =~= items);
}

/// The items after the first, each preceded by one separator.
pub open spec fn preceded_by_sep(items: Seq<Seq<char>>, sep: Seq<char>) -> Seq<Seq<char>> {
    Seq::new((items.len() - 1) as nat, |i: int| sep + items[i + 1])
}

/// A joined, non-empty list is its first item followed by every other item,
/// each with exactly one separator in front: `n` items, `n - 1` separators.
pub proof fn lemma_joined_separators(items: Seq<Seq<char>>, sep: Seq<char>)
    requires
        items.len() > 0,
    ensures
        joined(items, sep) == items[0] + preceded_by_sep(items, sep).flatten(),
    decreases items.len(),
{
    if items.len() == 1 {
        assert(preceded_by_sep(items, sep) =~= Seq::<Seq<char>>::empty());
        assert(items[0] + Seq::<Seq<char>>::empty().flatten() =~= items[0]);
    } else {
        let p = items.drop_last();
        lemma_joined_separators(p, sep);
        assert(preceded_by_sep(items, sep) =~= preceded_by_sep(p, sep).push(sep + items.last()));
        preceded_by_sep(p, sep).lemma_flatten_push(sep + items.last());
        assert(joined(items, sep) =~= items[0] + preceded_by_sep(items, sep).flatten());
    }
}

/// Joins string slices with a separator.
pub fn join_strs(items: &[&str], sep: &str) -> (r: String)
    ensures
        r@ == joined(str_views(items@), sep@),
{
    let mut r = String::new();
    let ghost views = str_views(items@);
    let mut i: usize = 0;
    while i < items.len()
        invariant
            i <= items@.len(),
            views == str_views(items@),
            r@ == joined(views.take(i as int), sep@),
        decreases items@.len() - i,
    {
        proof {
            lemma_joined_push(views.take(i as int), sep@, views[i as int]);
            assert(views.take(i as int).push(views[i as int]) =~= views.take(i + 1));
        }
        if i > 0 {
            r.append(sep);
        }
        r.append(items[i]);
        i = i + 1;
    }
    assert(views.take(i as int) =~= views);
    r
}

/// Joins owned strings with a separator.
pub fn join_strings(items: &Vec<String>, sep: &str) -> (r: String)
    ensures
        r@ == joined(string_views(items@), sep@),
{
    let mut r = String::new();
    let ghost views = string_views(items@);
    let mut i: usize = 0;
    while i < items.len()
        invariant
            i <= items@.len(),
            views == string_views(items@),
            r@ == joined(views.take(i as int), sep@),
        decreases items@.len() - i,
    {
        proof {
            lemma_joined_push(views.take(i as int), sep@, views[i as int]);
            assert(views.take(i as int).push(views[i as int]) =~= views.take(i + 1));
        }
        if i > 0 {
            r.append(sep);
        }
        r.append(items[i].as_str());
        i = i + 1;
    }
    assert(views.take(i as int) =~= views);
    r
}

/// The decimal digit character for `d`.
pub open spec fn digit_char(d: nat) -> char {
    if d == 0 {
        '0'
    } else if d == 1 {
        '1'
    } else if d == 2 {
        '2'
    } else if d == 3 {
        '3'
    } else if d == 4 {
        '4'
    } else if d == 5 {
        '5'
    } else if d == 6 {
        '6'
    } else if d == 7 {
        '7'
    } else if d == 8 {
        '8'
    } else {
        '9'
    }
}

/// `n` written in decimal, most significant digit first, without leading zeros.
pub open spec fn decimal(n: nat) -> Seq<char>
    decreases n,
{
    if n < 10 {
        seq![digit_char(n)]
    } else {
        decimal(n / 10).push(digit_char(n % 10))
    }
}

fn digit_str(d: u32) -> (r: &'static str)
    requires
        d < 10,
    ensures
        r@ == seq![digit_char(d as nat)],
{
    proof {
        reveal_strlit("0");
        reveal_strlit("1");
        reveal_strlit("2");
        reveal_strlit("3");
        reveal_strlit("4");
        reveal_strlit("5");
        reveal_strlit("6");
        reveal_strlit("7");
        reveal_strlit("8");
        reveal_strlit("9");
    }
    let r = if d == 0 {
        "0"
    } else if d == 1 {
        "1"
    } else if d == 2 {
        "2"
    } else if d == 3 {
        "3"
    } else if d == 4 {
        "4"
    } else if d == 5 {
        "5"
    } else if d == 6 {
        "6"
    } else if d == 7 {
        "7"
    } else if d == 8 {
        "8"
    } else {
        "9"
    };
    assert(r@ =~= seq![digit_char(d as nat)]);
    r
}

/// Writes `n` in decimal.
pub fn decimal_text(n: u32) -> (r: String)
    ensures
        r@ == decimal(n as nat),
    decreases n,
{
    if n < 10 {
        let mut r = String::new();
        r.append(digit_str(n));
        assert(r@ =~= decimal(n as nat));
        r
    } else {
        let mut r = decimal_text(n / 10);
        r.append(digit_str(n % 10));
        r
    }
}

/// The character view of an optional owned string.
pub open spec fn option_view(o: Option<String>) -> Option<Seq<char>> {
    match o {
        Some(s) => Some(s@),
        None => None,
    }
}

/// A clause introduced by `keyword`, present only when its body is not empty.
pub open spec fn section(keyword: Seq<char>, body: Seq<char>) -> Seq<char> {
    if body.len() == 0 {
        Seq::empty()
    } else {
        keyword + body
    }
}

/// A clause introduced by `keyword`, present only when a body was given.
pub open spec fn optional_section(keyword: Seq<char>, body: Option<Seq<char>>) -> Seq<char> {
    match body {
        Some(b) => keyword + b,
        None => Seq::empty(),
    }
}

/// Appends the clause `keyword body`, or nothing when `body` is empty.
pub fn push_section(sql: &mut String, keyword: &str, body: &str)
    ensures
        final(sql)@ == old(sql)@ + section(keyword@, body@),
{
    if body.is_empty() {
        assert(sql@ =~= old(sql)@ + section(keyword@, body@));
    } else {
        sql.append(keyword);
        sql.append(body);
        assert(sql@ =~= old(sql)@ + section(keyword@, body@));
    }
}

/// Appends the clause `keyword body`, or nothing when no body is given.
pub fn push_optional_section(sql: &mut String, keyword: &str, body: Option<&str>)
    ensures
        final(sql)@ == old(sql)@ + optional_section(
            keyword@,
            match body {
                Some(b) => Some(b@),
                None => None,
            },
        ),
{
    match body {
        Some(b) => {
            sql.append(keyword);
            sql.append(b);
            assert(sql@ =~= old(sql)@ + (keyword@ + b@));
        },
        None => {
            assert(sql@ =~= old(sql)@ + Seq::<char>::empty());
        },
    }
}

/// A predicate extended with `AND cond`, without any grouping.
pub open spec fn conjoined(pred: Seq<char>, cond: Seq<char>) -> Seq<char> {
    pred + " AND "@ + cond
}

/// A predicate extended with `OR cond`, without any grouping.
pub open spec fn disjoined(pred: Seq<char>, cond: Seq<char>) -> Seq<char> {
    pred + " OR "@ + cond
}

/// Appends ` AND cond` to a predicate.
pub fn push_and(pred: &mut String, cond: &str)
    ensures
        final(pred)@ == conjoined(old(pred)@, cond@),
{
    pred.append(" AND ");
    pred.append(cond);
}

/// Appends ` OR cond` to a predicate.
pub fn push_or(pred: &mut String, cond: &str)
    ensures
        final(pred)@ == disjoined(old(pred)@, cond@),
{
    pred.append(" OR ");
    pred.append(cond);
}

} // verus!
