//! Rendering of response bodies as exact character sequences.
//!
//! Each route's body is specified by a spec function on views, and the
//! executable renderer is proved to produce exactly that sequence. Numbers
//! are rendered in decimal; name/value lists are rendered one pair per
//! line, in arrival order, so nothing a request carried is lost or
//! reordered.

use vstd::prelude::*;
use vstd::string::StringExecFns;
use crate::config::MyConfig;
use crate::fields::{first_match, FieldList};
use crate::gate::request_id_name;

verus! {

/// The decimal digit character for `d`.
pub open spec fn digit_char(d: int) -> char {
    if d == 0 {
        '0'
    } else if d == 1 {
        '1'
    } else if d == 2 {
        '2'
    } else if d == 3 {
        '3'
    } else if d == 4 {
        '4'
    } else if d == 5 {
        '5'
    } else if d == 6 {
        '6'
    } else if d == 7 {
        '7'
    } else if d == 8 {
        '8'
    } else {
        '9'
    }
}

/// The decimal rendering of `n`, most significant digit first, without
/// leading zeros (`0` itself renders as `"0"`).
pub open spec fn dec_digits(n: nat) -> Seq<char>
    decreases n,
{
    if n < 10 {
        seq![digit_char(n as int)]
    } else {
        dec_digits(n / 10).push(digit_char((n % 10) as int))
    }
}

fn digit_str(d: u64) -> (s: &'static str)
    requires
        d < 10,
    ensures
        s@ == seq![digit_char(d as int)],
{
    let s: &'static str = if d == 0 {
        "0"
    } else if d == 1 {
        "1"
    } else if d == 2 {
        "2"
    } else if d == 3 {
        "3"
    } else if d == 4 {
        "4"
    } else if d == 5 {
        "5"
    } else if d == 6 {
        "6"
    } else if d == 7 {
        "7"
    } else if d == 8 {
        "8"
    } else {
        "9"
    };
    proof {
        reveal_strlit("0");
        reveal_strlit("1");
        reveal_strlit("2");
        reveal_strlit("3");
        reveal_strlit("4");
        reveal_strlit("5");
        reveal_strlit("6");
        reveal_strlit("7");
        reveal_strlit("8");
        reveal_strlit("9");
        assert(s@ =~= seq![digit_char(d as int)]);
    }
    s
}

/// Renders `n` in decimal.
pub fn u64_to_string(n: u64) -> (s: String)
    ensures
        s@ == dec_digits(n as nat),
    decreases n,
{
    if n < 10 {
        let s = String::from_str(digit_str(n));
        proof {
            assert(s@ =~= dec_digits(n as nat));
        }
        s
    } else {
        let mut s = u64_to_string(n / 10);
        s.append(digit_str(n % 10));
        proof {
            assert(s@ =~= dec_digits(n as nat));
        }
        s
    }
}

/// The greeting body: the counter value, then the configuration text.
pub open spec fn greeting_spec(counter: nat, config: Seq<char>) -> Seq<char> {
    "<h1>Counter: "@ + dec_digits(counter) + "</h1> <br/> <h1> Config: "@ + config
}

/// Renders the greeting for the root route from the counter value a
/// request observed and the shared configuration.
pub fn render_greeting(counter_value: usize, config: &MyConfig) -> (s: String)
    ensures
        s@ == greeting_spec(counter_value as nat, config@),
{
    let mut s = String::from_str("<h1>Counter: ");
    s.append(u64_to_string(counter_value as u64).as_str());
    s.append("</h1> <br/> <h1> Config: ");
    s.append(config.text().as_str());
    proof {
        assert(s@ =~= greeting_spec(counter_value as nat, config@));
    }
    s
}

/// The nested service's body: its counter value, then its state value.
pub open spec fn service_one_spec(counter: nat, state: nat) -> Seq<char> {
    "<h1>Service One counter: "@ + dec_digits(counter) + "</h1> <br/> <h1>State: "@ + dec_digits(
        state,
    )
}

/// Renders the nested service's body from the two values it displays.
pub fn render_service_one(counter_value: usize, state_value: usize) -> (s: String)
    ensures
        s@ == service_one_spec(counter_value as nat, state_value as nat),
{
    let mut s = String::from_str("<h1>Service One counter: ");
    s.append(u64_to_string(counter_value as u64).as_str());
    s.append("</h1> <br/> <h1>State: ");
    s.append(u64_to_string(state_value as u64).as_str());
    proof {
        assert(s@ =~= service_one_spec(counter_value as nat, state_value as nat));
    }
    s
}

/// The book route's body around its path-bound identifier.
pub open spec fn book_spec(id: Seq<char>) -> Seq<char> {
    "<h1>Book ID: "@ + id + "</h1>"@
}

/// Renders the book route's body. The identifier is an opaque string,
/// echoed verbatim: no numeric parsing is applied here, so any path
/// segment is accepted and reproduced as it came.
pub fn render_book(id: &String) -> (s: String)
    ensures
        s@ == book_spec(id@),
{
    let mut s = String::from_str("<h1>Book ID: ");
    s.append(id.as_str());
    s.append("</h1>");
    proof {
        assert(s@ =~= book_spec(id@));
    }
    s
}

/// The body shown for a count fetched from the incrementing route.
pub open spec fn count_spec(n: nat) -> Seq<char> {
    "<h1>Count: "@ + dec_digits(n) + "</h1>"@
}

/// Renders a fetched count.
pub fn render_count(count: u64) -> (s: String)
    ensures
        s@ == count_spec(count as nat),
{
    let mut s = String::from_str("<h1>Count: ");
    s.append(u64_to_string(count).as_str());
    s.append("</h1>");
    proof {
        assert(s@ =~= count_spec(count as nat));
    }
    s
}

/// One echoed pair: its name, a separator, its value, a line break.
pub open spec fn field_line(p: (Seq<char>, Seq<char>)) -> Seq<char> {
    p.0 + ": "@ + p.1 + "\n"@
}

/// All pairs of a list echoed in arrival order, one line each.
pub open spec fn fields_lines(s: Seq<(Seq<char>, Seq<char>)>) -> Seq<char>
    decreases s.len(),
{
    if s.len() == 0 {
        Seq::empty()
    } else {
        fields_lines(s.drop_last()) + field_line(s.last())
    }
}

/// Where the `i`-th pair's line begins in the echo of `s`.
pub open spec fn line_offset(s: Seq<(Seq<char>, Seq<char>)>, i: int) -> int {
    fields_lines(s.take(i)).len() as int
}

proof fn lemma_lines_prefix(s: Seq<(Seq<char>, Seq<char>)>, i: int)
    requires
        0 <= i <= s.len(),
    ensures
        fields_lines(s.take(i)).len() <= fields_lines(s).len(),
        fields_lines(s).subrange(0, fields_lines(s.take(i)).len() as int) == fields_lines(
            s.take(i),
        ),
    decreases s.len(),
{
    if i == s.len() {
        assert(s.take(i) =~= s);
        assert(fields_lines(s).subrange(0, fields_lines(s).len() as int) =~= fields_lines(s));
    } else {
        lemma_lines_prefix(s.drop_last(), i);
        assert(s.drop_last().take(i) =~= s.take(i));
        assert(fields_lines(s).subrange(0, fields_lines(s.take(i)).len() as int) =~= fields_lines(
            s.take(i),
        ));
    }
}

/// The echo loses no pair and keeps their order: the `i`-th pair's line
/// stands in the echoed output exactly at its offset, the offsets of
/// consecutive pairs abut, and every line is non-empty, so the offsets
/// strictly increase with `i` — no omission, and no reordering that loses
/// information.
pub proof fn lemma_fields_lines_complete(s: Seq<(Seq<char>, Seq<char>)>, i: int)
    requires
        0 <= i < s.len(),
    ensures
        line_offset(s, i + 1) == line_offset(s, i) + field_line(s[i]).len(),
        0 <= line_offset(s, i),
        line_offset(s, i + 1) <= fields_lines(s).len(),
        fields_lines(s).subrange(line_offset(s, i), line_offset(s, i + 1)) == field_line(s[i]),
        field_line(s[i]).len() >= 3,
{
    reveal_strlit(": ");
    reveal_strlit("\n");
    assert(s.take(i + 1).drop_last() =~= s.take(i));
    assert(s.take(i + 1).last() == s[i]);
    assert(fields_lines(s.take(i + 1)) == fields_lines(s.take(i)) + field_line(s[i]));
    lemma_lines_prefix(s, i);
    lemma_lines_prefix(s, i + 1);
    let full = fields_lines(s);
    let line = field_line(s[i]);
    let off0 = line_offset(s, i);
    let off1 = line_offset(s, i + 1);
    assert forall|j: int| 0 <= j < line.len() implies full[off0 + j] == line[j] by {
        assert(full[off0 + j] == full.subrange(0, off1)[off0 + j]);
        assert(fields_lines(s.take(i + 1))[off0 + j] == line[j]);
    }
    assert(full.subrange(off0, off1) =~= line);
}

/// Echoes every pair of `l`, one `name: value` line per pair, in arrival
/// order with duplicates kept, so the output loses nothing the request
/// carried.
pub fn render_fields(l: &FieldList) -> (s: String)
    ensures
        s@ == fields_lines(l@),
{
    let n = l.len();
    let mut s = String::new();
    let mut i: usize = 0;
    while i < n
        invariant
            n == l@.len(),
            i <= n,
            s@ == fields_lines(l@.take(i as int)),
        decreases n - i,
    {
        let ghost prefix = l@.take(i as int);
        s.append(l.name_at(i).as_str());
        s.append(": ");
        s.append(l.value_at(i).as_str());
        s.append("\n");
        i = i + 1;
        proof {
            assert(l@.take(i as int).drop_last() =~= prefix);
            assert(l@.take(i as int).last() == l@[i - 1]);
            assert(s@ =~= fields_lines(prefix) + field_line(l@[i - 1]));
        }
    }
    proof {
        assert(l@.take(n as int) =~= l@);
    }
    s
}

/// The header echo route's body: exactly the lines of every header pair.
pub fn render_headers(headers: &FieldList) -> (s: String)
    ensures
        s@ == fields_lines(headers@),
{
    render_fields(headers)
}

/// The query echo route's body around the echoed parameter lines.
pub open spec fn query_spec(params: Seq<(Seq<char>, Seq<char>)>) -> Seq<char> {
    "<h1>Query Params:\n"@ + fields_lines(params) + "</h1>"@
}

/// Renders the query echo route's body: every parameter pair, one line
/// each, in arrival order.
pub fn render_query(params: &FieldList) -> (s: String)
    ensures
        s@ == query_spec(params@),
{
    let mut s = String::from_str("<h1>Query Params:\n");
    s.append(render_fields(params).as_str());
    s.append("</h1>");
    proof {
        assert(s@ =~= query_spec(params@));
    }
    s
}

/// The body the header-authentication route answers with: the
/// request-identifier's value when the request carries that header, else a
/// fixed notice.
pub open spec fn header_auth_spec(headers: Seq<(Seq<char>, Seq<char>)>) -> Seq<char> {
    match first_match(headers, request_id_name()) {
        Some(v) => "<h1>Request ID: "@ + v + "</h1>"@,
        None => "x-request-id not found"@,
    }
}

/// Renders the header-authentication route's body. The identifier's value
/// is echoed verbatim (the first occurrence, when the header repeats).
pub fn render_header_auth(headers: &FieldList) -> (s: String)
    ensures
        s@ == header_auth_spec(headers@),
{
    let name = String::from_str("x-request-id");
    match headers.find(&name) {
        Some(v) => {
            let mut s = String::from_str("<h1>Request ID: ");
            s.append(v.as_str());
            s.append("</h1>");
            proof {
                assert(s@ =~= header_auth_spec(headers@));
            }
            s
        },
        None => String::from_str("x-request-id not found"),
    }
}

} // verus!
