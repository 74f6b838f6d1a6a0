//! Field checks of request bodies and the text that reports the failed ones:
//! one line per failing field, `field: message, message`, lines joined by a
//! line break.
use vstd::prelude::*;
use regex::Regex;

verus! {

/// What `Regex::new(pattern)` and then `is_match(text)` give: `None` where the
/// pattern does not compile, else whether `text` holds a match.
pub uninterp spec fn regex_match_result(pattern: Seq<char>, text: Seq<char>) -> Option<bool>;

/// Calls `regex::Regex::new` on `pattern`, then `Regex::is_match` on `text`.
/// Claims only that the outcome is a function of the two strings, named
/// `regex_match_result`.
#[verifier::external_body]
pub(crate) fn regex_is_match(pattern: &str, text: &str) -> (r: Option<bool>)
    ensures
        r == regex_match_result(pattern@, text@),
{
    match Regex::new(pattern) {
        Ok(re) => Some(re.is_match(text)),
        Err(_) => None,
    }
}

/// The pattern a PIN must match: six digits.
pub open spec fn pin_pattern() -> Seq<char> {
    "^\\d{6}$"@
}

/// The PIN pattern matches `pin`.
pub open spec fn matches_pin_pattern(pin: Seq<char>) -> bool {
    regex_match_result(pin_pattern(), pin) == Some(true)
}

/// Whether `pin` matches the PIN pattern.
pub fn pin_pattern_matches(pin: &str) -> (r: bool)
    ensures
        r == matches_pin_pattern(pin@),
{
    let m = regex_is_match("^\\d{6}$", pin);
    match m {
        Some(b) => b,
        None => false,
    }
}

/// `parts` joined by `sep`.
pub open spec fn join(parts: Seq<Seq<char>>, sep: Seq<char>) -> Seq<char>
    decreases parts.len(),
{
    if parts.len() == 0 {
        Seq::empty()
    } else if parts.len() == 1 {
        parts[0]
    } else {
        join(parts.drop_last(), sep) + sep + parts.last()
    }
}

/// The views of some strings.
pub open spec fn texts(v: Seq<String>) -> Seq<Seq<char>> {
    v.map_values(|s: String| s@)
}

/// `parts` joined by `sep`.
pub fn join_strings(parts: &Vec<String>, sep: &str) -> (r: String)
    ensures
        r@ == join(texts(parts@), sep@),
{
    let ghost all = texts(parts@);
    let mut r = String::new();
    let n = parts.len();
    let mut i: usize = 0;
    while i < n
        invariant
            n == parts@.len(),
            all == texts(parts@),
            i <= n,
            r@ == join(all.take(i as int), sep@),
        decreases n - i,
    {
        let ghost before = r@;
        if i == 0 {
            r = parts[i].as_str().to_owned();
        } else {
            r = r.concat(sep);
            r = r.concat(parts[i].as_str());
        }
        proof {
            assert(all.take(i + 1).drop_last() =~= all.take(i as int));
            assert(all.take(i + 1).last() == parts@[i as int]@);
            if i == 0 {
                assert(all.take(1).len() == 1);
            }
        }
        i = i + 1;
    }
    proof {
        assert(all.take(n as int) =~= all);
    }
    r
}

/// The checks of one field of a request body: its name and the messages of
/// the checks it failed.
pub struct FieldCheck {
    pub field: String,
    pub messages: Vec<String>,
}

impl View for FieldCheck {
    type V = (Seq<char>, Seq<Seq<char>>);

    open spec fn view(&self) -> (Seq<char>, Seq<Seq<char>>) {
        (self.field@, texts(self.messages@))
    }
}

/// The messages of a check: `msg` where it fails, none where it holds.
pub open spec fn check(holds: bool, msg: Seq<char>) -> Seq<Seq<char>> {
    if holds { Seq::empty() } else { seq![msg] }
}

/// The report line of a field that failed some checks.
pub open spec fn field_line(field: Seq<char>, messages: Seq<Seq<char>>) -> Seq<char> {
    field + ": "@ + join(messages, ", "@)
}

/// The report lines of the fields that failed a check, in order.
pub open spec fn failing_lines(fields: Seq<(Seq<char>, Seq<Seq<char>>)>) -> Seq<Seq<char>>
    decreases fields.len(),
{
    if fields.len() == 0 {
        Seq::empty()
    } else {
        let rest = failing_lines(fields.drop_last());
        let f = fields.last();
        if f.1.len() == 0 {
            rest
        } else {
            rest.push(field_line(f.0, f.1))
        }
    }
}

/// The outcome of checking fields: success where none failed, else the report.
pub open spec fn validation_outcome(fields: Seq<(Seq<char>, Seq<Seq<char>>)>) -> Result<(), Seq<char>> {
    let lines = failing_lines(fields);
    if lines.len() == 0 {
        Ok(())
    } else {
        Err(join(lines, "\n"@))
    }
}

/// The view of a validation result.
pub open spec fn outcome_view(r: Result<(), String>) -> Result<(), Seq<char>> {
    match r {
        Ok(()) => Ok(()),
        Err(s) => Err(s@),
    }
}

/// The views of some field checks.
pub open spec fn check_views(v: Seq<FieldCheck>) -> Seq<(Seq<char>, Seq<Seq<char>>)> {
    v.map_values(|c: FieldCheck| c@)
}

/// Success where no field failed a check, else the report of those that did.
pub fn validation_report(checks: &Vec<FieldCheck>) -> (r: Result<(), String>)
    ensures
        outcome_view(r) == validation_outcome(check_views(checks@)),
{
    let ghost all = check_views(checks@);
    let mut lines: Vec<String> = Vec::new();
    let n = checks.len();
    let mut i: usize = 0;
    while i < n
        invariant
            n == checks@.len(),
            all == check_views(checks@),
            i <= n,
            texts(lines@) == failing_lines(all.take(i as int)),
        decreases n - i,
    {
        let c = &checks[i];
        proof {
            assert(all.take(i + 1).drop_last() =~= all.take(i as int));
            assert(all.take(i + 1).last() == c@);
        }
        if c.messages.len() > 0 {
            let m = join_strings(&c.messages, ", ");
            let head = c.field.as_str().to_owned().concat(": ");
            let line = head.concat(m.as_str());
            let ghost before = lines@;
            lines.push(line);
            proof {
                assert(texts(lines@) =~= texts(before).push(line@));
            }
        }
        i = i + 1;
    }
    proof {
        assert(all.take(n as int) =~= all);
    }
    if lines.len() == 0 {
        Ok(())
    } else {
        Err(join_strings(&lines, "\n"))
    }
}

/// A field check made of the given messages.
pub fn field_check(field: &str, messages: Vec<String>) -> (r: FieldCheck)
    ensures
        r@ == (field@, texts(messages@)),
{
    FieldCheck { field: field.to_owned(), messages }
}

/// `msg` added to `messages` where `holds` is false.
pub fn add_check(messages: &mut Vec<String>, holds: bool, msg: &str)
    ensures
        texts(final(messages)@) == texts(old(messages)@) + check(holds, msg@),
{
    let ghost before = messages@;
    if !holds {
        messages.push(msg.to_owned());
        proof {
            assert(texts(messages@) =~= texts(before) + seq![msg@]);
        }
    } else {
        proof {
            assert(texts(messages@) =~= texts(before) + Seq::<Seq<char>>::empty());
        }
    }
}

/// A body passes its checks exactly when no field failed one.
pub proof fn passes_iff_no_field_failed(fields: Seq<(Seq<char>, Seq<Seq<char>>)>)
    ensures
        validation_outcome(fields) is Ok <==> forall|i: int| 0 <= i < fields.len() ==> (#[trigger] fields[i]).1.len() == 0,
    decreases fields.len(),
{
    if fields.len() > 0 {
        let rest = fields.drop_last();
        passes_iff_no_field_failed(rest);
        assert forall|i: int| 0 <= i < rest.len() implies #[trigger] rest[i] == fields[i] by {}
        if fields.last().1.len() == 0 {
            if failing_lines(fields).len() == 0 {
                assert forall|i: int| 0 <= i < fields.len() implies (#[trigger] fields[i]).1.len() == 0 by {
                    if i < rest.len() {
                        assert(rest[i] == fields[i]);
                    }
                }
            }
            if forall|i: int| 0 <= i < fields.len() ==> (#[trigger] fields[i]).1.len() == 0 {
                assert forall|i: int| 0 <= i < rest.len() implies (#[trigger] rest[i]).1.len() == 0 by {
                    assert(rest[i] == fields[i]);
                }
            }
        } else {
            assert(fields[fields.len() - 1].1.len() != 0);
        }
    }
}

/// A check adds no message exactly when it holds.
pub proof fn check_fails_iff_not_holds(holds: bool, msg: Seq<char>)
    ensures
        check(holds, msg).len() == 0 <==> holds,
{
}

} // verus!
