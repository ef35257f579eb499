//! Custom commands: their names, adding and removing them, where a new
//! command's text comes from, and choosing one to run.
use vstd::prelude::*;

use crate::config::{CommandEntry, CommandMap};
use crate::text::{chars_of, has_prefix, is_blank, push_char, push_str, starts_with, trim, trim_end};

verus! {

/// A name with the `ax-` prefix that custom commands carry.
pub open spec fn prefixed(name: Seq<char>) -> Seq<char> {
    if starts_with(name, "ax-"@) {
        name
    } else {
        "ax-"@ + name
    }
}

/// `name` with the `ax-` prefix, added when it is missing.
pub fn ensure_prefix(name: &str) -> (r: String)
    ensures
        r@ == prefixed(name@),
{
    let v = chars_of(name);
    if has_prefix(&v, &chars_of("ax-")) {
        name.to_owned()
    } else {
        let mut r = "ax-".to_owned();
        push_str(&mut r, name);
        r
    }
}

/// The name a new command gets: as given with `raw`, otherwise prefixed.
pub fn command_name(name: &str, raw: bool) -> (r: String)
    ensures
        r@ == (if raw {
            name@
        } else {
            prefixed(name@)
        }),
{
    if raw {
        name.to_owned()
    } else {
        ensure_prefix(name)
    }
}

/// The command a name refers to: the name itself when it has an entry, else
/// the name with `ax-` put before it when that has one, else the name.
pub open spec fn resolved_name(name: Seq<char>, m: Map<Seq<char>, CommandEntry>) -> Seq<char> {
    if m.contains_key(name) {
        name
    } else if m.contains_key("ax-"@ + name) {
        "ax-"@ + name
    } else {
        name
    }
}

/// The command that `name` refers to in `map` (see `resolved_name`).
pub fn resolve_name(name: &str, map: &CommandMap) -> (r: String)
    requires
        map.wf(),
    ensures
        r@ == resolved_name(name@, map.map()),
{
    if map.contains_key(name) {
        name.to_owned()
    } else {
        let mut prefixed = "ax-".to_owned();
        push_str(&mut prefixed, name);
        if map.contains_key(prefixed.as_str()) {
            prefixed
        } else {
            name.to_owned()
        }
    }
}

/// Operations on a command table.
pub struct CommandStore;

impl CommandStore {
    /// Adds a command under a new name; a name already taken is left alone
    /// and `false` comes back.
    pub fn add(map: &mut CommandMap, name: &str, cmd: &str, desc: &str) -> (added: bool)
        requires
            old(map).wf(),
        ensures
            final(map).wf(),
            added == !old(map).map().contains_key(name@),
            !added ==> final(map).map() == old(map).map(),
            added ==> final(map).map() == old(map).map().insert(name@, final(map).map()[name@]),
            added ==> final(map).map()[name@].cmd@ == cmd@ && final(map).map()[name@].desc@ == desc@,
    {
        if map.contains_key(name) {
            return false;
        }
        map.insert(name.to_owned(), CommandEntry { cmd: cmd.to_owned(), desc: desc.to_owned() });
        true
    }

    /// Removes the command `name`; whether there was one.
    pub fn remove(map: &mut CommandMap, name: &str) -> (removed: bool)
        requires
            old(map).wf(),
        ensures
            final(map).wf(),
            removed == old(map).map().contains_key(name@),
            final(map).map() == old(map).map().remove(name@),
    {
        map.remove(name).is_some()
    }

    /// The command `name`, if there is one.
    pub fn get<'a>(map: &'a CommandMap, name: &str) -> (r: Option<&'a CommandEntry>)
        requires
            map.wf(),
        ensures
            match r {
                Some(e) => map.map().contains_key(name@) && *e == map.map()[name@],
                None => !map.map().contains_key(name@),
            },
    {
        map.get(name)
    }
}

/// Why a command could not be added.
#[derive(Debug)]
pub enum AddError {
    /// The command text is empty or blank.
    EmptyCommand,
    /// Both a command text and a file were given.
    CommandAndFile,
}

impl AddError {
    /// The message shown for the error.
    pub open spec fn text(&self) -> Seq<char> {
        match self {
            AddError::EmptyCommand => "命令内容不能为空"@,
            AddError::CommandAndFile => "不能同时指定命令内容和 -f 参数"@,
        }
    }

    /// The message shown for the error.
    pub fn message(&self) -> (r: &'static str)
        ensures
            r@ == self.text(),
    {
        match self {
            AddError::EmptyCommand => "命令内容不能为空",
            AddError::CommandAndFile => "不能同时指定命令内容和 -f 参数",
        }
    }
}

/// What adding a command did.
#[derive(Debug, PartialEq, Eq, Structural)]
pub enum AddOutcome {
    /// The command was added.
    Added,
    /// A command of that name already exists; nothing was changed.
    AlreadyExists,
}

/// The notice shown when a command of that name already exists.
pub open spec fn exists_notice(name: Seq<char>) -> Seq<char> {
    "⚠️  命令 '"@ + name + "' 已存在，请先删除或使用 edit"@
}

/// Checks a new command's name before its text is read: a name that is
/// already taken gives the notice to show (and nothing is to be added).
pub fn existing_command_notice(map: &CommandMap, name: &str) -> (r: Option<String>)
    requires
        map.wf(),
    ensures
        r is Some <==> map.map().contains_key(name@),
        r matches Some(m) ==> m@ == exists_notice(name@),
{
    if map.contains_key(name) {
        let mut m = "⚠️  命令 '".to_owned();
        push_str(&mut m, name);
        push_str(&mut m, "' 已存在，请先删除或使用 edit");
        Some(m)
    } else {
        None
    }
}

/// Adds the command `name` with the text `cmd`. A name that is already taken
/// is left as it is (`AlreadyExists`); otherwise a blank text is refused.
pub fn add_command(map: &mut CommandMap, name: &str, cmd: &str, desc: &str) -> (r: Result<AddOutcome, AddError>)
    requires
        old(map).wf(),
    ensures
        final(map).wf(),
        old(map).map().contains_key(name@) ==> r == Ok::<AddOutcome, AddError>(AddOutcome::AlreadyExists)
            && final(map).map() == old(map).map(),
        !old(map).map().contains_key(name@) && trim(cmd@).len() == 0 ==> r == Err::<AddOutcome, AddError>(
            AddError::EmptyCommand,
        ) && final(map).map() == old(map).map(),
        !old(map).map().contains_key(name@) && trim(cmd@).len() > 0 ==> r == Ok::<AddOutcome, AddError>(
            AddOutcome::Added,
        ) && final(map).map().contains_key(name@) && final(map).map() == old(map).map().insert(
            name@,
            final(map).map()[name@],
        ) && final(map).map()[name@].cmd@ == cmd@ && final(map).map()[name@].desc@ == desc@,
{
    if map.contains_key(name) {
        return Ok(AddOutcome::AlreadyExists);
    }
    if is_blank(cmd) {
        return Err(AddError::EmptyCommand);
    }
    map.insert(name.to_owned(), CommandEntry { cmd: cmd.to_owned(), desc: desc.to_owned() });
    Ok(AddOutcome::Added)
}

/// Where the text of a new command comes from.
#[derive(Debug)]
pub enum CmdSource {
    /// A file with this path.
    File(String),
    /// Standard input, read to the end.
    Stdin,
    /// The text given on the command line.
    Text(String),
    /// Lines typed in, up to a blank one.
    Interactive,
}

/// Decides where a new command's text comes from: a file given with `-f`,
/// standard input for `-`, the text itself, or typed-in lines when neither is
/// given; both at once is refused.
pub fn cmd_source(cmd: Option<&str>, file: Option<&str>) -> (r: Result<CmdSource, AddError>)
    ensures
        match (cmd, file) {
            (None, Some(p)) => r matches Ok(CmdSource::File(q)) && q@ == p@,
            (Some(c), None) => if c@ == "-"@ {
                r matches Ok(CmdSource::Stdin)
            } else {
                r matches Ok(CmdSource::Text(t)) && t@ == c@
            },
            (Some(_), Some(_)) => r matches Err(AddError::CommandAndFile),
            (None, None) => r matches Ok(CmdSource::Interactive),
        },
{
    match (cmd, file) {
        (None, Some(p)) => Ok(CmdSource::File(p.to_owned())),
        (Some(c), None) => {
            if crate::text::str_eq(c, "-") {
                Ok(CmdSource::Stdin)
            } else {
                Ok(CmdSource::Text(c.to_owned()))
            }
        },
        (Some(_), Some(_)) => Err(AddError::CommandAndFile),
        (None, None) => Ok(CmdSource::Interactive),
    }
}

/// Lines typed in for a new command, collected until a blank line.
pub struct MultilineInput {
    lines: Vec<String>,
    done: bool,
}

impl View for MultilineInput {
    type V = (Seq<Seq<char>>, bool);

    /// The lines kept so far, and whether input has ended.
    closed spec fn view(&self) -> (Seq<Seq<char>>, bool) {
        (crate::text::views(self.lines@), self.done)
    }
}

/// The lines joined with line feeds.
pub open spec fn joined(lines: Seq<Seq<char>>) -> Seq<char>
    decreases lines.len(),
{
    if lines.len() == 0 {
        seq![]
    } else if lines.len() == 1 {
        lines[0]
    } else {
        joined(lines.drop_last()) + seq!['\n'] + lines.last()
    }
}

impl MultilineInput {
    /// No lines yet.
    pub fn new() -> (r: Self)
        ensures
            r@ == (Seq::<Seq<char>>::empty(), false),
    {
        let r = MultilineInput { lines: Vec::new(), done: false };
        assert(r@.0 =~= Seq::<Seq<char>>::empty());
        r
    }

    /// Takes one typed line (with or without its line ending). A blank line
    /// ends the input; any other line is kept without trailing whitespace.
    /// Whether more lines are wanted comes back.
    pub fn push_line(&mut self, line: &str) -> (more: bool)
        requires
            !old(self)@.1,
        ensures
            more == (trim(line@).len() > 0),
            more ==> final(self)@ == (old(self)@.0.push(trim_end(line@)), false),
            !more ==> final(self)@ == (old(self)@.0, true),
    {
        if is_blank(line) {
            self.done = true;
            return false;
        }
        let v = chars_of(line);
        let t = crate::text::trim_end_chars(&v);
        let ghost old_lines = self.lines@;
        self.lines.push(crate::text::string_of(&t));
        assert(crate::text::views(self.lines@) =~= crate::text::views(old_lines).push(trim_end(line@)));
        true
    }

    /// The command text: the kept lines joined with line feeds.
    pub fn finish(&self) -> (r: String)
        ensures
            r@ == joined(self@.0),
    {
        let ghost all = crate::text::views(self.lines@);
        let mut out = String::new();
        let mut i: usize = 0;
        while i < self.lines.len()
            invariant
                i <= self.lines@.len(),
                all == crate::text::views(self.lines@),
                out@ == joined(all.take(i as int)),
            decreases self.lines.len() - i,
        {
            if i > 0 {
                push_char(&mut out, '\n');
            }
            push_str(&mut out, self.lines[i].as_str());
            assert(all.take(i + 1).drop_last() =~= all.take(i as int));
            i = i + 1;
        }
        assert(all.take(self.lines@.len() as int) =~= all);
        out
    }
}

/// What the user chose from the numbered list of commands.
#[derive(Debug, PartialEq, Eq, Structural)]
pub enum Selection {
    /// Nothing: `0` or an empty answer.
    Cancel,
    /// The command at this index (from zero) of the list.
    Index(usize),
    /// The command with this name.
    Name,
    /// A number or name that matches nothing.
    Invalid,
    /// Not a number.
    NotANumber,
}

/// The decimal value of a string of ASCII digits (an empty string is not one).
pub open spec fn digits_value(s: Seq<char>) -> int
    decreases s.len(),
{
    if s.len() == 0 {
        0
    } else {
        digits_value(s.drop_last()) * 10 + (s.last() as int - '0' as int)
    }
}

/// Every character is an ASCII digit, and there is at least one.
pub open spec fn all_digits(s: Seq<char>) -> bool {
    s.len() > 0 && forall|i: int| 0 <= i < s.len() ==> '0' <= #[trigger] s[i] && s[i] <= '9'
}

/// The text after an optional leading `+`.
pub open spec fn digits_part(s: Seq<char>) -> Seq<char> {
    if s.len() > 0 && s[0] == '+' {
        s.drop_first()
    } else {
        s
    }
}

/// What `str::parse::<usize>` gives: an optional `+`, then digits, with a
/// value that fits.
pub open spec fn parse_usize(s: Seq<char>) -> Option<int> {
    let d = digits_part(s);
    if all_digits(d) && digits_value(d) <= usize::MAX {
        Some(digits_value(d))
    } else {
        None
    }
}

proof fn lemma_digits_value_monotone(s: Seq<char>)
    requires
        forall|i: int| 0 <= i < s.len() ==> '0' <= #[trigger] s[i] && s[i] <= '9',
    ensures
        digits_value(s) >= 0,
        s.len() > 0 ==> digits_value(s) >= digits_value(s.drop_last()),
    decreases s.len(),
{
    if s.len() > 0 {
        let t = s.drop_last();
        assert forall|i: int| 0 <= i < t.len() implies '0' <= #[trigger] t[i] && t[i] <= '9' by {
            assert(t[i] == s[i]);
        }
        lemma_digits_value_monotone(t);
    }
}

/// Reads a number the way `str::parse::<usize>` does.
pub fn parse_number(s: &str) -> (r: Option<usize>)
    ensures
        match r {
            Some(n) => parse_usize(s@) == Some(n as int),
            None => parse_usize(s@) is None,
        },
{
    let v = chars_of(s);
    let start: usize = if v.len() > 0 && v[0] == '+' {
        1
    } else {
        0
    };
    let ghost d = digits_part(s@);
    assert(d =~= v@.skip(start as int));
    if start >= v.len() {
        return None;
    }
    let mut value: usize = 0;
    let mut i = start;
    while i < v.len()
        invariant
            v@ == s@,
            start < v@.len(),
            start <= i <= v@.len(),
            d == v@.skip(start as int),
            d == digits_part(s@),
            forall|j: int| start <= j < i ==> '0' <= #[trigger] v@[j] && v@[j] <= '9',
            value as int == digits_value(v@.subrange(start as int, i as int)),
        decreases v.len() - i,
    {
        let c = v[i];
        if !('0' <= c && c <= '9') {
            assert(d[i - start] == c);
            assert(!('0' <= d[i - start] && d[i - start] <= '9'));
            assert(!all_digits(d));
            return None;
        }
        let digit = (c as u32 - '0' as u32) as usize;
        assert(v@.subrange(start as int, i + 1).drop_last() =~= v@.subrange(start as int, i as int));
        if value > (usize::MAX - digit) / 10 {
            proof {
                let p = v@.subrange(start as int, i + 1);
                assert(p.last() == c);
                assert(digit as int == c as int - '0' as int);
                assert(digits_value(p) == digits_value(p.drop_last()) * 10 + (p.last() as int - '0' as int));
                assert forall|j: int| 0 <= j < p.len() implies '0' <= #[trigger] p[j] && p[j] <= '9' by {
                    assert(p[j] == v@[start + j]);
                }
                assert(digits_value(p) > usize::MAX) by (nonlinear_arith)
                    requires
                        digits_value(p) == value * 10 + digit,
                        value > (usize::MAX - digit) / 10,
                        digit <= 9,
                ;
                assert(p =~= d.take(p.len() as int));
                if all_digits(d) {
                    lemma_prefix_value_bound(d, p);
                }
            }
            return None;
        }
        proof {
            let p = v@.subrange(start as int, i + 1);
            assert(p.last() == c);
            assert(digit as int == c as int - '0' as int);
            assert(digits_value(p) == digits_value(p.drop_last()) * 10 + (p.last() as int - '0' as int));
            assert(value * 10 + digit <= usize::MAX) by (nonlinear_arith)
                requires
                    value <= (usize::MAX - digit) / 10,
                    digit <= 9,
            ;
        }
        value = value * 10 + digit;
        i = i + 1;
    }
    proof {
        assert(v@.subrange(start as int, v@.len() as int) =~= d);
        assert forall|j: int| 0 <= j < d.len() implies '0' <= #[trigger] d[j] && d[j] <= '9' by {
            assert(d[j] == v@[start + j]);
        }
    }
    Some(value)
}

proof fn lemma_prefix_value_bound(d: Seq<char>, p: Seq<char>)
    requires
        all_digits(d),
        p.len() <= d.len(),
        p == d.take(p.len() as int),
    ensures
        digits_value(d) >= digits_value(p),
    decreases d.len() - p.len(),
{
    if p.len() < d.len() {
        let q = d.take(p.len() + 1 as int);
        assert(q.drop_last() =~= p);
        assert forall|i: int| 0 <= i < q.len() implies '0' <= #[trigger] q[i] && q[i] <= '9' by {
            assert(q[i] == d[i]);
        }
        lemma_digits_value_monotone(q);
        lemma_prefix_value_bound(d, q);
    } else {
        assert(p =~= d);
    }
}

/// What an answer to the numbered list of `count` commands chooses: the
/// answer is trimmed; `0` or nothing cancels; a number from 1 to `count`
/// picks that entry; another number picks the command of that name if there
/// is one and is invalid otherwise; anything else is not a number.
pub open spec fn selection_of(input: Seq<char>, count: nat, m: Map<Seq<char>, CommandEntry>) -> Selection {
    let t = trim(input);
    if t == "0"@ || t.len() == 0 {
        Selection::Cancel
    } else {
        match parse_usize(t) {
            Some(n) => if 1 <= n <= count {
                Selection::Index((n - 1) as usize)
            } else if m.contains_key(t) {
                Selection::Name
            } else {
                Selection::Invalid
            },
            None => Selection::NotANumber,
        }
    }
}

/// Reads the answer to the numbered list of the commands in `map`, listed in
/// name order.
pub fn select_command(input: &str, map: &CommandMap) -> (r: Selection)
    requires
        map.wf(),
    ensures
        r == selection_of(input@, map@.len(), map.map()),
{
    let t = crate::text::trim_str(input);
    if crate::text::str_eq(t.as_str(), "0") || t.as_str().is_empty() {
        return Selection::Cancel;
    }
    match parse_number(t.as_str()) {
        Some(n) => {
            if 1 <= n && n <= map.len() {
                Selection::Index(n - 1)
            } else if map.contains_key(t.as_str()) {
                Selection::Name
            } else {
                Selection::Invalid
            }
        },
        None => Selection::NotANumber,
    }
}

} // verus!
