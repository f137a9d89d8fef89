//! The argument tokens of one command, and what is wrong with them.

use vstd::prelude::*;

use crate::text::{begins, decimal, decimal_text, join, joined, same, starts_with, texts, told};

verus! {

/// Tokens as they are read: each is used once at most.
pub struct Scan {
    pub items: Seq<String>,
    pub used: Seq<bool>,
}

impl Scan {
    pub open spec fn wf(self) -> bool {
        self.used.len() == self.items.len()
    }

    /// The scan of tokens of which none is used.
    pub open spec fn fresh(items: Seq<String>) -> Scan {
        Scan { items, used: Seq::new(items.len(), |i: int| false) }
    }

    /// The first unused token at or after `from` that is the flag; the number of
    /// tokens where there is none.
    pub open spec fn next_hit(self, flag: Seq<char>, from: int) -> int
        decreases self.items.len() - from,
    {
        if from >= self.items.len() {
            self.items.len() as int
        } else if !self.used[from] && self.items[from]@ == flag {
            from
        } else {
            self.next_hit(flag, from + 1)
        }
    }

    /// The scan with one more token used.
    pub open spec fn mark(self, index: int) -> Scan {
        Scan { items: self.items, used: self.used.update(index, true) }
    }

    /// Take a flag that has no value: whether it is there.
    pub open spec fn switch(self, flag: Seq<char>) -> (Result<bool, Seq<char>>, Scan) {
        let i = self.next_hit(flag, 0);
        if i >= self.items.len() {
            (Ok(false), self)
        } else if self.next_hit(flag, i + 1) < self.items.len() {
            (Err(flag + " specified more than once"@), self)
        } else {
            (Ok(true), self.mark(i))
        }
    }

    /// Whether the token is one that a flag's value can be.
    pub open spec fn offers_value(self, index: int, allow_dash: bool) -> bool {
        index < self.items.len() && !self.used[index] && (allow_dash || !begins(
            self.items[index]@,
            '-',
        ))
    }

    /// Take a flag that is given once at most, with the value behind it.
    pub open spec fn value(self, flag: Seq<char>) -> (Result<Option<String>, Seq<char>>, Scan) {
        let i = self.next_hit(flag, 0);
        if i >= self.items.len() {
            (Ok(None), self)
        } else if self.next_hit(flag, i + 1) < self.items.len() {
            (Err(flag + " specified more than once"@), self)
        } else if self.offers_value(i + 1, false) {
            (Ok(Some(self.items[i + 1])), self.mark(i).mark(i + 1))
        } else {
            (Err(flag + " needs a value"@), self)
        }
    }

    /// Take a flag as often as it is given from `from` on, with the value behind
    /// each. A value may start with a dash.
    pub open spec fn all_values_from(self, flag: Seq<char>, from: int) -> (
        Result<Seq<String>, Seq<char>>,
        Scan,
    )
        decreases self.items.len() - from,
    {
        let i = self.next_hit(flag, from);
        if i < from || i >= self.items.len() {
            (Ok(Seq::empty()), self)
        } else if self.offers_value(i + 1, true) {
            let value = self.items[i + 1];
            match self.mark(i).mark(i + 1).all_values_from(flag, i + 2) {
                (Ok(values), after) => (Ok(seq![value] + values), after),
                (Err(e), after) => (Err(e), after),
            }
        } else {
            (Err(flag + " needs a value"@), self)
        }
    }

    /// Take a flag as often as it is given, with the value behind each.
    pub open spec fn all_values(self, flag: Seq<char>) -> (Result<Seq<String>, Seq<char>>, Scan) {
        self.all_values_from(flag, 0)
    }

    /// The first unused token at or after `from` that does not start with a dash.
    pub open spec fn next_positional(self, from: int) -> int
        decreases self.items.len() - from,
    {
        if from >= self.items.len() {
            self.items.len() as int
        } else if !self.used[from] && !begins(self.items[from]@, '-') {
            from
        } else {
            self.next_positional(from + 1)
        }
    }

    /// Take the first token that is no flag.
    pub open spec fn positional(self) -> (Option<String>, Scan) {
        let i = self.next_positional(0);
        if i >= self.items.len() {
            (None, self)
        } else {
            (Some(self.items[i]), self.mark(i))
        }
    }

    /// What is wrong with the token, which is not used.
    pub open spec fn complaint(self, index: int) -> Seq<char> {
        let item = self.items[index]@;
        if !begins(item, '-') {
            "unexpected argument "@ + item
        } else if item == "--socket"@ || item == "--json"@ {
            item + " is a global flag and goes before the command, as `kelpie "@ + item
                + " <command> ...`"@
        } else {
            "unknown argument "@ + item
        }
    }

    /// Where to go on behind an unused token: an unrecognised flag also swallows
    /// the unused value behind it.
    pub open spec fn behind(self, index: int) -> int {
        if begins(self.items[index]@, '-') && self.offers_value(index + 1, false) {
            index + 2
        } else {
            index + 1
        }
    }

    /// One complaint for each token from `from` on that was never used.
    pub open spec fn leftovers_from(self, from: int) -> Seq<Seq<char>>
        decreases self.items.len() - from,
    {
        if from >= self.items.len() {
            Seq::empty()
        } else if self.used[from] {
            self.leftovers_from(from + 1)
        } else {
            seq![self.complaint(from)] + self.leftovers_from(self.behind(from))
        }
    }

    /// One complaint for each token that was never used.
    pub open spec fn leftovers(self) -> Seq<Seq<char>> {
        self.leftovers_from(0)
    }

    /// What a command says of its unused tokens, if there are any.
    pub open spec fn finish(self, command: Seq<char>) -> Result<(), Seq<char>> {
        if self.leftovers().len() == 0 {
            Ok(())
        } else {
            Err(command + " "@ + joined(self.leftovers(), "; "@))
        }
    }
}

/// The tokens of one command.
#[derive(Debug)]
pub struct Tokens<'a> {
    items: &'a [String],
    used: Vec<bool>,
}

impl<'a> Tokens<'a> {
    pub closed spec fn view(&self) -> Scan {
        Scan { items: self.items@, used: self.used@ }
    }

    /// Tokens of which none is used.
    pub fn new(items: &'a [String]) -> (tokens: Tokens<'a>)
        ensures
            tokens@ == Scan::fresh(items@),
            tokens@.wf(),
    {
        let mut used: Vec<bool> = Vec::new();
        let mut i: usize = 0;
        while i < items.len()
            invariant
                i <= items@.len(),
                used@ == Seq::new(i as nat, |j: int| false),
            decreases items@.len() - i,
        {
            used.push(false);
            i = i + 1;
            assert(used@ =~= Seq::new(i as nat, |j: int| false));
        }
        Tokens { items, used }
    }

    /// The first unused token at or after `from` that is the flag.
    fn find(&self, flag: &str, from: usize) -> (index: usize)
        requires
            self@.wf(),
            from <= self@.items.len(),
        ensures
            index == self@.next_hit(flag@, from as int),
            from <= index <= self@.items.len(),
            index < self@.items.len() ==> !self@.used[index as int],
    {
        let mut i: usize = from;
        while i < self.items.len()
            invariant
                self@.wf(),
                from <= i <= self@.items.len(),
                self@.next_hit(flag@, from as int) == self@.next_hit(flag@, i as int),
            decreases self@.items.len() - i,
        {
            if !self.used[i] && same(self.items[i].as_str(), flag) {
                return i;
            }
            i = i + 1;
        }
        i
    }

    /// Whether the token is one that a flag's value can be.
    fn offers(&self, index: usize, allow_dash: bool) -> (r: bool)
        requires
            self@.wf(),
        ensures
            r == self@.offers_value(index as int, allow_dash),
    {
        index < self.items.len() && !self.used[index] && (allow_dash || !starts_with(
            self.items[index].as_str(),
            '-',
        ))
    }

    /// Take a flag that has no value.
    pub fn take_bool(&mut self, flag: &str) -> (r: Result<bool, String>)
        requires
            old(self)@.wf(),
        ensures
            final(self)@.wf(),
            final(self)@ == old(self)@.switch(flag@).1,
            told(r, old(self)@.switch(flag@).0),
    {
        let first = self.find(flag, 0);
        if first >= self.items.len() {
            return Ok(false);
        }
        if self.find(flag, first + 1) < self.items.len() {
            return Err(flag.to_owned().concat(" specified more than once"));
        }
        self.used.set(first, true);
        Ok(true)
    }

    /// Take a flag that is given once at most, with the value behind it.
    pub fn take_value(&mut self, flag: &str) -> (r: Result<Option<String>, String>)
        requires
            old(self)@.wf(),
        ensures
            final(self)@.wf(),
            final(self)@ == old(self)@.value(flag@).1,
            told(r, old(self)@.value(flag@).0),
    {
        let first = self.find(flag, 0);
        if first >= self.items.len() {
            return Ok(None);
        }
        if self.find(flag, first + 1) < self.items.len() {
            return Err(flag.to_owned().concat(" specified more than once"));
        }
        if !self.offers(first + 1, false) {
            return Err(flag.to_owned().concat(" needs a value"));
        }
        self.used.set(first, true);
        self.used.set(first + 1, true);
        Ok(Some(self.items[first + 1].clone()))
    }

    /// Take a flag as often as it is given, with the value behind each. A value
    /// may start with a dash.
    pub fn take_all_values(&mut self, flag: &str) -> (r: Result<Vec<String>, String>)
        requires
            old(self)@.wf(),
        ensures
            final(self)@.wf(),
            final(self)@ == old(self)@.all_values(flag@).1,
            match (r, old(self)@.all_values(flag@).0) {
                (Ok(values), Ok(meant)) => values@ == meant,
                (Err(e), Err(meant)) => e@ == meant,
                _ => false,
            },
    {
        let mut values: Vec<String> = Vec::new();
        let mut from: usize = 0;
        loop
            invariant
                self@.wf(),
                from <= self@.items.len(),
                self@.items == old(self)@.items,
                old(self)@.all_values(flag@).1 == self@.all_values_from(flag@, from as int).1,
                match (
                    old(self)@.all_values(flag@).0,
                    self@.all_values_from(flag@, from as int).0,
                ) {
                    (Ok(all), Ok(rest)) => all == values@ + rest,
                    (Err(all), Err(rest)) => all == rest,
                    _ => false,
                },
            decreases self@.items.len() - from,
        {
            let index = self.find(flag, from);
            if index >= self.items.len() {
                assert(values@ + Seq::<String>::empty() =~= values@);
                return Ok(values);
            }
            if !self.offers(index + 1, true) {
                return Err(flag.to_owned().concat(" needs a value"));
            }
            let ghost before = self@;
            let ghost taken = values@;
            let value = self.items[index + 1].clone();
            self.used.set(index, true);
            self.used.set(index + 1, true);
            values.push(value);
            proof {
                assert(self@ == before.mark(index as int).mark(index + 1));
                match self@.all_values_from(flag@, index + 2).0 {
                    Ok(rest) => {
                        assert(taken + (seq![value] + rest) =~= values@ + rest);
                    },
                    Err(_) => {},
                }
            }
            from = index + 2;
        }
    }

    /// Take the first token that is no flag.
    pub fn take_positional(&mut self) -> (r: Option<String>)
        requires
            old(self)@.wf(),
        ensures
            final(self)@.wf(),
            final(self)@ == old(self)@.positional().1,
            r == old(self)@.positional().0,
    {
        let mut i: usize = 0;
        while i < self.items.len()
            invariant
                self@.wf(),
                self@ == old(self)@,
                i <= self@.items.len(),
                self@.next_positional(0) == self@.next_positional(i as int),
            decreases self@.items.len() - i,
        {
            if !self.used[i] && !starts_with(self.items[i].as_str(), '-') {
                self.used.set(i, true);
                return Some(self.items[i].clone());
            }
            i = i + 1;
        }
        None
    }

    /// Describe every argument this parse never consumed, one entry each.
    ///
    /// An unrecognised flag also swallows the unused value token behind it, so
    /// a misspelled flag reads as one problem rather than as a bad flag plus a
    /// stray positional.
    pub fn leftovers(&self) -> (problems: Vec<String>)
        requires
            self@.wf(),
        ensures
            texts(problems@) == self@.leftovers(),
    {
        let mut problems: Vec<String> = Vec::new();
        let mut index: usize = 0;
        assert(texts(problems@) + self@.leftovers_from(0) =~= self@.leftovers());
        while index < self.items.len()
            invariant
                self@.wf(),
                index <= self@.items.len(),
                texts(problems@) + self@.leftovers_from(index as int) == self@.leftovers(),
            decreases self@.items.len() - index,
        {
            if self.used[index] {
                index = index + 1;
                continue ;
            }
            let item = self.items[index].as_str();
            let ghost before = texts(problems@);
            let dashed = starts_with(item, '-');
            let problem = if !dashed {
                "unexpected argument ".to_owned().concat(item)
            } else if same(item, "--socket") || same(item, "--json") {
                // Global flags are read only until the command name, so one placed
                // after it lands here looking like a typo. Say where it goes
                // instead: rewriting the command line to hunt for it is how
                // arguments get dropped.
                item.to_owned().concat(
                    " is a global flag and goes before the command, as `kelpie ",
                ).concat(item).concat(" <command> ...`")
            } else {
                "unknown argument ".to_owned().concat(item)
            };
            problems.push(problem);
            proof {
                assert(texts(problems@) =~= before.push(self@.complaint(index as int)));
                let rest = self@.leftovers_from(self@.behind(index as int));
                assert(before + (seq![self@.complaint(index as int)] + rest) =~= texts(problems@)
                    + rest);
            }
            if dashed && self.offers(index + 1, false) {
                index = index + 2;
            } else {
                index = index + 1;
            }
        }
        assert(texts(problems@) + Seq::<Seq<char>>::empty() =~= texts(problems@));
        problems
    }

    /// Refuse whatever the parse never consumed.
    pub fn finish(&self, command: &str) -> (r: Result<(), String>)
        requires
            self@.wf(),
        ensures
            told(r, self@.finish(command@)),
    {
        let problems = self.leftovers();
        if problems.len() == 0 {
            assert(texts(problems@).len() == 0);
            return Ok(());
        }
        assert(texts(problems@).len() == problems@.len());
        Err(command.to_owned().concat(" ").concat(join(&problems, "; ").as_str()))
    }
}

/// A parse that goes on past what is wrong: the problems so far and the tokens.
pub struct Parse {
    pub found: Seq<Seq<char>>,
    pub scan: Scan,
}

/// Each problem on a line of its own.
pub open spec fn problem_lines(found: Seq<Seq<char>>) -> Seq<char>
    decreases found.len(),
{
    if found.len() == 0 {
        Seq::empty()
    } else {
        problem_lines(found.drop_last()) + "\n  "@ + found.last()
    }
}

/// What a command says of its problems, if there are any.
pub open spec fn verdict(command: Seq<char>, found: Seq<Seq<char>>) -> Result<(), Seq<char>> {
    if found.len() == 0 {
        Ok(())
    } else if found.len() == 1 {
        Err(command + ": "@ + found[0])
    } else {
        Err(command + ": "@ + decimal_text(found.len()) + " problems"@ + problem_lines(found))
    }
}

impl Parse {
    /// The parse with one more problem.
    pub open spec fn note(self, problem: Seq<char>) -> Parse {
        Parse { found: self.found.push(problem), scan: self.scan }
    }

    /// The parse with a problem, where there is one.
    pub open spec fn note_if(self, wrong: bool, problem: Seq<char>) -> Parse {
        if wrong {
            self.note(problem)
        } else {
            self
        }
    }

    /// Take an optional value; a malformed one is a problem.
    pub open spec fn value(self, flag: Seq<char>) -> (Option<String>, Parse) {
        match self.scan.value(flag) {
            (Ok(value), scan) => (value, Parse { found: self.found, scan }),
            (Err(e), scan) => (None, Parse { found: self.found.push(e), scan }),
        }
    }

    /// Take a required value; its absence is a problem.
    pub open spec fn required(self, flag: Seq<char>) -> (Option<String>, Parse) {
        match self.scan.value(flag) {
            (Ok(Some(value)), scan) => (Some(value), Parse { found: self.found, scan }),
            (Ok(None), scan) => (
                None,
                Parse { found: self.found.push("missing "@ + flag), scan },
            ),
            (Err(e), scan) => (None, Parse { found: self.found.push(e), scan }),
        }
    }

    /// Take a flag without a value; a repeated one is a problem.
    pub open spec fn switch(self, flag: Seq<char>) -> (bool, Parse) {
        match self.scan.switch(flag) {
            (Ok(present), scan) => (present, Parse { found: self.found, scan }),
            (Err(e), scan) => (false, Parse { found: self.found.push(e), scan }),
        }
    }

    /// Take every value of a flag; a missing one is a problem.
    pub open spec fn all_values(self, flag: Seq<char>) -> (Seq<String>, Parse) {
        match self.scan.all_values(flag) {
            (Ok(values), scan) => (values, Parse { found: self.found, scan }),
            (Err(e), scan) => (Seq::empty(), Parse { found: self.found.push(e), scan }),
        }
    }

    /// Every problem, those of unused tokens last.
    pub open spec fn all_found(self) -> Seq<Seq<char>> {
        self.found + self.scan.leftovers()
    }
}

/// Every usage problem found while parsing one invocation.
///
/// A parse that returns on the first problem makes a caller discover a
/// multi-argument requirement one rejected invocation at a time, and every
/// rewrite in between is a chance to drop an argument the parser does not
/// itself require. So the argument-heavy parses collect their problems and
/// report them once.
#[derive(Debug)]
pub struct Problems {
    found: Vec<String>,
}

impl Default for Problems {
    fn default() -> (r: Self)
        ensures
            r@ == Seq::<Seq<char>>::empty(),
    {
        let r = Problems { found: Vec::new() };
        assert(r@ =~= Seq::<Seq<char>>::empty());
        r
    }
}

impl Problems {
    pub closed spec fn view(&self) -> Seq<Seq<char>> {
        texts(self.found@)
    }

    /// Record one problem.
    pub fn note(&mut self, problem: String)
        ensures
            final(self)@ == old(self)@.push(problem@),
    {
        self.found.push(problem);
        assert(self@ =~= old(self)@.push(problem@));
    }

    /// Take an optional value, recording a malformed one instead of returning.
    pub fn value(&mut self, tokens: &mut Tokens, flag: &str) -> (r: Option<String>)
        requires
            old(tokens)@.wf(),
        ensures
            final(tokens)@.wf(),
            (r, Parse { found: final(self)@, scan: final(tokens)@ }) == (Parse {
                found: old(self)@,
                scan: old(tokens)@,
            }).value(flag@),
    {
        match tokens.take_value(flag) {
            Ok(value) => value,
            Err(problem) => {
                self.note(problem);
                None
            },
        }
    }

    /// Take a required value, recording its absence as one more problem.
    pub fn required(&mut self, tokens: &mut Tokens, flag: &str) -> (r: Option<String>)
        requires
            old(tokens)@.wf(),
        ensures
            final(tokens)@.wf(),
            (r, Parse { found: final(self)@, scan: final(tokens)@ }) == (Parse {
                found: old(self)@,
                scan: old(tokens)@,
            }).required(flag@),
    {
        match tokens.take_value(flag) {
            Ok(Some(value)) => Some(value),
            Ok(None) => {
                self.note("missing ".to_owned().concat(flag));
                None
            },
            // A malformed flag already explains itself; do not also call it missing.
            Err(problem) => {
                self.note(problem);
                None
            },
        }
    }

    /// Take a flag without a value, recording a repeated one.
    pub fn switch(&mut self, tokens: &mut Tokens, flag: &str) -> (r: bool)
        requires
            old(tokens)@.wf(),
        ensures
            final(tokens)@.wf(),
            (r, Parse { found: final(self)@, scan: final(tokens)@ }) == (Parse {
                found: old(self)@,
                scan: old(tokens)@,
            }).switch(flag@),
    {
        match tokens.take_bool(flag) {
            Ok(present) => present,
            Err(problem) => {
                self.note(problem);
                false
            },
        }
    }

    /// Take every value of a flag, recording one that is missing.
    pub fn all_values(&mut self, tokens: &mut Tokens, flag: &str) -> (r: Vec<String>)
        requires
            old(tokens)@.wf(),
        ensures
            final(tokens)@.wf(),
            (r@, Parse { found: final(self)@, scan: final(tokens)@ }) == (Parse {
                found: old(self)@,
                scan: old(tokens)@,
            }).all_values(flag@),
    {
        match tokens.take_all_values(flag) {
            Ok(values) => values,
            Err(problem) => {
                self.note(problem);
                Vec::new()
            },
        }
    }

    /// Fold in whatever the parse never consumed, then report everything at once.
    pub fn resolve(self, tokens: &Tokens, command: &str) -> (r: Result<(), String>)
        requires
            tokens@.wf(),
        ensures
            told(
                r,
                verdict(command@, (Parse { found: self@, scan: tokens@ }).all_found()),
            ),
    {
        let mut found = self.found;
        let mut rest = tokens.leftovers();
        let ghost before = found@;
        let ghost more = rest@;
        found.append(&mut rest);
        let ghost all = (Parse { found: self@, scan: tokens@ }).all_found();
        assert(texts(found@) =~= all) by {
            assert(found@ =~= before + more);
            assert(texts(before + more) =~= texts(before) + texts(more));
        }
        assert(all.len() == found@.len());
        if found.len() == 0 {
            return Ok(());
        }
        if found.len() == 1 {
            assert(all[0] == found@[0]@);
            return Err(command.to_owned().concat(": ").concat(found[0].as_str()));
        }
        let mut lines = String::new();
        let mut i: usize = 0;
        assert(texts(found@.take(0)) =~= Seq::<Seq<char>>::empty());
        while i < found.len()
            invariant
                i <= found@.len(),
                lines@ == problem_lines(texts(found@.take(i as int))),
            decreases found@.len() - i,
        {
            lines = lines.concat("\n  ").concat(found[i].as_str());
            proof {
                let next = texts(found@.take(i as int + 1));
                assert(next.drop_last() =~= texts(found@.take(i as int)));
                assert(next.last() == found@[i as int]@);
            }
            i = i + 1;
        }
        assert(found@.take(i as int) =~= found@);
        Err(
            command.to_owned().concat(": ").concat(decimal(found.len() as u64).as_str()).concat(
                " problems",
            ).concat(lines.as_str()),
        )
    }
}

proof fn lemma_leftovers_none(scan: Scan, from: int)
    requires
        scan.wf(),
        0 <= from <= scan.items.len(),
        scan.leftovers_from(from).len() == 0,
    ensures
        forall|i: int| from <= i < scan.items.len() ==> #[trigger] scan.used[i],
    decreases scan.items.len() - from,
{
    if from < scan.items.len() {
        if scan.used[from] {
            lemma_leftovers_none(scan, from + 1);
        }
    }
}

/// A command that accepts its tokens has used every one of them: unknown,
/// duplicate and extra arguments fail closed.
pub proof fn law_accepted_tokens_are_all_used(scan: Scan, command: Seq<char>)
    requires
        scan.wf(),
        scan.finish(command) is Ok,
    ensures
        forall|i: int| 0 <= i < scan.items.len() ==> #[trigger] scan.used[i],
{
    lemma_leftovers_none(scan, 0);
}

/// A parse that collects its problems succeeds only where there are none and
/// every token is used.
pub proof fn law_resolved_parse_has_no_problem(parse: Parse, command: Seq<char>)
    requires
        parse.scan.wf(),
        verdict(command, parse.all_found()) is Ok,
    ensures
        parse.found.len() == 0,
        forall|i: int| 0 <= i < parse.scan.items.len() ==> #[trigger] parse.scan.used[i],
{
    lemma_leftovers_none(parse.scan, 0);
}

/// Whether a token is among these.
pub open spec fn stands(tokens: Seq<String>, token: Seq<char>) -> bool {
    exists|i: int| 0 <= i < tokens.len() && (#[trigger] tokens[i])@ == token
}

/// Whether a value stands right behind a flag.
pub open spec fn stands_behind(tokens: Seq<String>, flag: Seq<char>, value: String) -> bool {
    exists|i: int|
        0 <= i && i + 1 < tokens.len() && (#[trigger] tokens[i])@ == flag && tokens[i + 1] == value
}

/// Whether a value is what stands behind a flag; none where the flag does not stand there.
pub open spec fn says_value(tokens: Seq<String>, flag: Seq<char>, value: Option<String>) -> bool {
    match value {
        Some(value) => stands_behind(tokens, flag, value),
        None => !stands(tokens, flag),
    }
}

/// Whether a token is one of these that no dash begins.
pub open spec fn says_positional(tokens: Seq<String>, value: String) -> bool {
    exists|i: int| 0 <= i < tokens.len() && #[trigger] tokens[i] == value && !begins(value@, '-')
}

/// Whether values all stand behind a flag.
pub open spec fn says_values(tokens: Seq<String>, flag: Seq<char>, values: Seq<String>) -> bool {
    forall|k: int|
        0 <= k < values.len() ==> stands_behind(tokens, flag, #[trigger] values[k])
}

impl Scan {
    /// Whether no token that is the flag is used yet.
    pub open spec fn keeps(self, flag: Seq<char>) -> bool {
        self.wf() && forall|i: int|
            0 <= i < self.items.len() && (#[trigger] self.items[i])@ == flag ==> !self.used[i]
    }

    /// Whether a scan goes on with the same tokens, of which none becomes unused.
    pub open spec fn goes_on(self, after: Scan) -> bool {
        after.wf() && after.items == self.items
    }
}

proof fn lemma_next_hit(scan: Scan, flag: Seq<char>, from: int)
    requires
        scan.wf(),
        0 <= from,
    ensures
        ({
            let i = scan.next_hit(flag, from);
            &&& i < scan.items.len() ==> from <= i && !scan.used[i] && scan.items[i]@ == flag
            &&& forall|j: int|
                from <= j < i && j < scan.items.len() && (#[trigger] scan.items[j])@ == flag
                    ==> scan.used[j]
            &&& i >= scan.items.len() ==> i >= 0
        }),
    decreases scan.items.len() - from,
{
    if from < scan.items.len() && (scan.used[from] || scan.items[from]@ != flag) {
        lemma_next_hit(scan, flag, from + 1);
    }
}

proof fn lemma_next_positional(scan: Scan, from: int)
    requires
        scan.wf(),
        0 <= from,
    ensures
        ({
            let i = scan.next_positional(from);
            i < scan.items.len() ==> from <= i && !scan.used[i] && !begins(scan.items[i]@, '-')
        }),
    decreases scan.items.len() - from,
{
    if from < scan.items.len() && (scan.used[from] || begins(scan.items[from]@, '-')) {
        lemma_next_positional(scan, from + 1);
    }
}

/// A fresh scan has used nothing.
pub broadcast proof fn lemma_fresh(items: Seq<String>)
    ensures
        (#[trigger] Scan::fresh(items)).wf(),
        Scan::fresh(items).items == items,
        forall|flag: Seq<char>| #[trigger] Scan::fresh(items).keeps(flag),
{
}

/// A switch is on exactly where its flag stands among the tokens, and taking it leaves every
/// other flag where it is.
pub broadcast proof fn lemma_switch(scan: Scan, flag: Seq<char>)
    requires
        scan.wf(),
    ensures
        ({
            let (r, after) = #[trigger] scan.switch(flag);
            &&& scan.goes_on(after)
            &&& r matches Ok(on) ==> (on ==> stands(scan.items, flag))
            &&& r matches Ok(on) ==> (!on && scan.keeps(flag) ==> !stands(scan.items, flag))
            &&& forall|other: Seq<char>|
                other != flag && scan.keeps(other) ==> #[trigger] after.keeps(other)
        }),
{
    lemma_next_hit(scan, flag, 0);
    let i = scan.next_hit(flag, 0);
    if i < scan.items.len() {
        lemma_next_hit(scan, flag, i + 1);
        assert(scan.items[i]@ == flag);
    }
}

/// A value is what stands behind its flag, and taking it leaves every other flag where it
/// is: no value begins with a dash.
pub broadcast proof fn lemma_value(scan: Scan, flag: Seq<char>)
    requires
        scan.wf(),
    ensures
        ({
            let (r, after) = #[trigger] scan.value(flag);
            &&& scan.goes_on(after)
            &&& r matches Ok(Some(value)) ==> stands_behind(scan.items, flag, value) && !begins(
                value@,
                '-',
            )
            &&& r matches Ok(value) ==> (value is None && scan.keeps(flag) ==> !stands(
                scan.items,
                flag,
            ))
            &&& forall|other: Seq<char>|
                other != flag && begins(other, '-') && scan.keeps(other)
                    ==> #[trigger] after.keeps(other)
        }),
{
    lemma_next_hit(scan, flag, 0);
    let i = scan.next_hit(flag, 0);
    if i < scan.items.len() {
        lemma_next_hit(scan, flag, i + 1);
        assert(scan.items[i]@ == flag);
        if scan.offers_value(i + 1, false) {
            assert(stands_behind(scan.items, flag, scan.items[i + 1]));
        }
    }
}

/// A positional is one of the tokens that no dash begins, and taking it leaves every flag
/// where it is.
pub broadcast proof fn lemma_positional(scan: Scan)
    requires
        scan.wf(),
    ensures
        ({
            let (r, after) = #[trigger] scan.positional();
            &&& scan.goes_on(after)
            &&& r matches Some(value) ==> says_positional(scan.items, value)
            &&& forall|other: Seq<char>|
                begins(other, '-') && scan.keeps(other) ==> #[trigger] after.keeps(other)
        }),
{
    lemma_next_positional(scan, 0);
    let i = scan.next_positional(0);
    if i < scan.items.len() {
        assert(scan.items[i] == scan.items[i]);
    }
}

proof fn lemma_all_values_from(scan: Scan, flag: Seq<char>, from: int)
    requires
        scan.wf(),
        0 <= from,
    ensures
        ({
            let (r, after) = scan.all_values_from(flag, from);
            &&& scan.goes_on(after)
            &&& r matches Ok(values) ==> says_values(scan.items, flag, values)
            &&& r matches Ok(values) ==> (values.len() == 0 ==> after == scan)
            &&& r matches Ok(values) ==> (values.len() == 0 ==> forall|i: int|
                from <= i < scan.items.len() && (#[trigger] scan.items[i])@ == flag ==> scan.used[i])
        }),
    decreases scan.items.len() - from,
{
    lemma_next_hit(scan, flag, from);
    let i = scan.next_hit(flag, from);
    if from <= i < scan.items.len() && scan.offers_value(i + 1, true) {
        let next = scan.mark(i).mark(i + 1);
        lemma_all_values_from(next, flag, i + 2);
        assert(scan.items[i]@ == flag);
        assert(stands_behind(scan.items, flag, scan.items[i + 1]));
        if let Ok(values) = next.all_values_from(flag, i + 2).0 {
            let all = seq![scan.items[i + 1]] + values;
            assert forall|k: int| 0 <= k < all.len() implies stands_behind(
                scan.items,
                flag,
                #[trigger] all[k],
            ) by {
                if k > 0 {
                    assert(all[k] == values[k - 1]);
                }
            }
        }
    }
}

/// The values of a flag all stand behind it; there are none exactly where it does not stand
/// among the tokens.
pub broadcast proof fn lemma_all_values(scan: Scan, flag: Seq<char>)
    requires
        scan.wf(),
    ensures
        ({
            let (r, after) = #[trigger] scan.all_values(flag);
            &&& scan.goes_on(after)
            &&& r matches Ok(values) ==> says_values(scan.items, flag, values)
            &&& r matches Ok(values) ==> (values.len() == 0 ==> after == scan)
            &&& r matches Ok(values) ==> (values.len() == 0 && scan.keeps(flag) ==> !stands(
                scan.items,
                flag,
            ))
        }),
{
    lemma_all_values_from(scan, flag, 0);
}

} // verus!
