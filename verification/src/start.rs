//! Process startup state and the argument/environment vector views.
//!
//! The loader hands a process its argument and environment arrays as raw
//! null-terminated vectors; the unverified entry shell decodes them once, at
//! the boundary, into plain vectors of text and captures them here before any
//! other code runs. The views below are fresh, forward-only cursors over that
//! captured state: a fresh cursor always restarts from the beginning, and
//! draining one yields exactly the captured entries in order.

use vstd::prelude::*;
use crate::errors::RtError;
use crate::text::{contains_char, find_char, is_first_index_of, lemma_first_index_unique, str_eq};

verus! {

/// Process-wide identity, captured exactly once at startup: the decoded
/// argument vector, the decoded environment vector, and the program name
/// (the first argument, when there is one).
pub struct ProcessState {
    pub args: Vec<String>,
    pub env: Vec<String>,
    pub prg_name: Option<String>,
}

/// Clones a vector of strings element by element.
fn clone_strings(v: &Vec<String>) -> (r: Vec<String>)
    ensures
        r@ =~= v@,
{
    let mut r: Vec<String> = Vec::new();
    let mut i: usize = 0;
    while i < v.len()
        invariant
            i <= v@.len(),
            r@ =~= v@.subrange(0, i as int),
        decreases v@.len() - i,
    {
        r.push(v[i].clone());
        assert(r@ =~= v@.subrange(0, i + 1));
        i = i + 1;
    }
    r
}

impl ProcessState {
    /// The decoded argument vector, as a sequence of character sequences.
    pub open spec fn args_seq(&self) -> Seq<Seq<char>> {
        self.args.deep_view()
    }

    /// The decoded environment vector, as a sequence of character sequences.
    pub open spec fn env_seq(&self) -> Seq<Seq<char>> {
        self.env.deep_view()
    }

    /// Captures the process identity from the decoded startup vectors. The
    /// program name is the first argument slot when the argument count is
    /// positive; otherwise its capture is skipped, not fatal.
    pub fn capture(args: Vec<String>, env: Vec<String>) -> (r: ProcessState)
        ensures
            r.args == args,
            r.env == env,
            args@.len() > 0 ==> r.prg_name == Some(args[0]),
            args@.len() == 0 ==> r.prg_name is None,
    {
        let prg_name = if args.len() > 0 {
            Some(args[0].clone())
        } else {
            None
        };
        ProcessState { args, env, prg_name }
    }

    /// The program name to use in diagnostics: the captured one, or a fixed
    /// literal identifying the runtime when capture did not occur.
    pub open spec fn program_name_spec(&self) -> Seq<char> {
        match self.prg_name {
            Some(n) => n@,
            None => "ministd"@,
        }
    }

    /// Resolves the diagnostic program name; exactly `program_name_spec`.
    pub fn program_name(&self) -> (r: String)
        ensures
            r@ == self.program_name_spec(),
    {
        match &self.prg_name {
            Some(n) => n.clone(),
            None => "ministd".to_owned(),
        }
    }

    /// A fresh cursor over the argument vector, starting at slot zero.
    pub fn args(&self) -> (r: Args)
        ensures
            r.remaining() =~= self.args_seq(),
    {
        Args { items: clone_strings(&self.args), pos: 0 }
    }

    /// A fresh cursor over the environment vector.
    pub fn vars(&self) -> (r: Vars)
        ensures
            r.remaining() =~= self.env_seq(),
    {
        Vars { items: clone_strings(&self.env), pos: 0 }
    }

    /// Looks up `name` in the environment: the value of the first entry whose
    /// name part equals it, an error if a malformed entry (one without a
    /// separator) is reached first, `None` when no entry matches.
    pub fn var(&self, name: &str) -> (r: Result<Option<String>, RtError>)
        ensures
            match r {
                Ok(Some(v)) => lookup_spec(self.env_seq(), name@) == LookupResult::Found(v@),
                Ok(None) => lookup_spec(self.env_seq(), name@) is Absent,
                Err(e) => lookup_spec(self.env_seq(), name@) is Malformed && e is Decode,
            },
    {
        let mut i: usize = 0;
        let n: usize = self.env.len();
        assert(self.env_seq().skip(0) =~= self.env_seq());
        while i < n
            invariant
                i <= n,
                n == self.env_seq().len(),
                self.env_seq() == self.env.deep_view(),
                lookup_spec(self.env_seq(), name@) == lookup_spec(
                    self.env_seq().skip(i as int),
                    name@,
                ),
            decreases n - i,
        {
            proof {
                assert(self.env_seq().skip(i as int)[0] == self.env_seq()[i as int]);
                assert(self.env_seq().skip(i as int).skip(1) =~= self.env_seq().skip(i + 1));
            }
            let entry = &self.env[i];
            match split_env_entry(entry.as_str()) {
                None => {
                    return Err(RtError::Decode);
                },
                Some((key, value)) => {
                    if str_eq(key.as_str(), name) {
                        return Ok(Some(value));
                    }
                },
            }
            i = i + 1;
        }
        Ok(None)
    }
}

/// The outcome of scanning the environment for one name.
pub enum LookupResult {
    /// The first matching entry carries this value.
    Found(Seq<char>),
    /// Every entry is well formed and none matches.
    Absent,
    /// A malformed entry stands before any matching one.
    Malformed,
}

/// Scans `env` front to back: a malformed entry stops the scan with
/// `Malformed`; the first entry whose name equals `name` yields its value.
pub open spec fn lookup_spec(env: Seq<Seq<char>>, name: Seq<char>) -> LookupResult
    decreases env.len(),
{
    if env.len() == 0 {
        LookupResult::Absent
    } else if !env_entry_wf(env[0]) {
        LookupResult::Malformed
    } else if env_name(env[0]) == name {
        LookupResult::Found(env_value(env[0]))
    } else {
        lookup_spec(env.skip(1), name)
    }
}

/// An environment entry is well formed when it contains a separator.
pub open spec fn env_entry_wf(s: Seq<char>) -> bool {
    contains_char(s, '=')
}

/// The index of the first separator in a well-formed entry.
pub open spec fn first_sep(s: Seq<char>) -> int {
    choose|i: int| is_first_index_of(s, '=', i)
}

/// The name part of a well-formed entry: everything before the first separator.
pub open spec fn env_name(s: Seq<char>) -> Seq<char> {
    s.subrange(0, first_sep(s))
}

/// The value part of a well-formed entry: everything after the first separator.
pub open spec fn env_value(s: Seq<char>) -> Seq<char> {
    s.subrange(first_sep(s) + 1, s.len() as int)
}

/// Splits an environment entry at its first separator; `None` when the entry
/// is malformed (has no separator).
pub fn split_env_entry(s: &str) -> (r: Option<(String, String)>)
    ensures
        r matches Some((name, value)) ==> {
            &&& env_entry_wf(s@)
            &&& name@ == env_name(s@)
            &&& value@ == env_value(s@)
        },
        r is None ==> !env_entry_wf(s@),
{
    match find_char(s, '=') {
        Some(i) => {
            proof {
                assert(is_first_index_of(s@, '=', i as int));
                assert(is_first_index_of(s@, '=', first_sep(s@)));
                lemma_first_index_unique(s@, '=', i as int, first_sep(s@));
            }
            let n = s.unicode_len();
            let name = s.substring_char(0, i).to_owned();
            let value = s.substring_char(i + 1, n).to_owned();
            Some((name, value))
        },
        None => None,
    }
}

/// A forward-only cursor over the captured argument vector. Consuming an
/// element never yields it again; a fresh cursor restarts from the start.
pub struct Args {
    items: Vec<String>,
    pos: usize,
}

impl Args {
    #[verifier::type_invariant]
    spec fn wf(&self) -> bool {
        self.pos <= self.items@.len()
    }

    /// The elements this cursor has not yet yielded, in order.
    pub closed spec fn remaining(&self) -> Seq<Seq<char>> {
        self.items.deep_view().skip(self.pos as int)
    }

    /// Reads the current slot and advances: the front of the remaining
    /// sequence, or `None` exactly when the cursor is exhausted.
    pub fn next(&mut self) -> (r: Option<String>)
        ensures
            old(self).remaining().len() == 0 ==> r is None && final(self).remaining()
                == old(self).remaining(),
            old(self).remaining().len() > 0 ==> {
                &&& r matches Some(s) && s@ == old(self).remaining()[0]
                &&& final(self).remaining() == old(self).remaining().skip(1)
            },
    {
        proof {
            use_type_invariant(&*self);
        }
        if self.pos < self.items.len() {
            let s = self.items[self.pos].clone();
            self.pos = self.pos + 1;
            assert(final(self).remaining() =~= old(self).remaining().skip(1));
            Some(s)
        } else {
            assert(final(self).remaining() =~= old(self).remaining());
            None
        }
    }

    /// Drains the cursor, collecting every remaining element in order.
    pub fn drain(&mut self) -> (r: Vec<String>)
        ensures
            r.deep_view() == old(self).remaining(),
            final(self).remaining().len() == 0,
    {
        let mut r: Vec<String> = Vec::new();
        loop
            invariant
                r.deep_view() + self.remaining() =~= old(self).remaining(),
            decreases self.remaining().len(),
        {
            let ghost before = self.remaining();
            match self.next() {
                Some(s) => {
                    r.push(s);
                    assert(r.deep_view() + self.remaining() =~= old(self).remaining());
                },
                None => {
                    assert(r.deep_view() =~= old(self).remaining());
                    return r;
                },
            }
        }
    }
}

/// Fresh argument cursors are independent and restart from the beginning:
/// any two cursors as `ProcessState::args` hands them out carry the same
/// remaining sequence, so draining each yields identical sequences.
pub proof fn lemma_args_views_idempotent(s: ProcessState, a: Args, b: Args)
    requires
        a.remaining() == s.args_seq(),
        b.remaining() == s.args_seq(),
    ensures
        a.remaining() == b.remaining(),
{
}

/// Fresh environment cursors are independent and restart from the beginning,
/// exactly as the argument cursors do.
pub proof fn lemma_vars_views_idempotent(s: ProcessState, a: Vars, b: Vars)
    requires
        a.remaining() == s.env_seq(),
        b.remaining() == s.env_seq(),
    ensures
        a.remaining() == b.remaining(),
{
}

/// A forward-only cursor over the captured environment vector; each slot is
/// split at its first separator into a name/value pair, and a slot without a
/// separator surfaces as a decode error.
pub struct Vars {
    items: Vec<String>,
    pos: usize,
}

impl Vars {
    #[verifier::type_invariant]
    spec fn wf(&self) -> bool {
        self.pos <= self.items@.len()
    }

    /// The entries this cursor has not yet yielded, in order, unsplit.
    pub closed spec fn remaining(&self) -> Seq<Seq<char>> {
        self.items.deep_view().skip(self.pos as int)
    }

    /// Reads the current entry, advances, and splits it: `None` exactly when
    /// the cursor is exhausted; a decode error for an entry with no separator.
    pub fn next(&mut self) -> (r: Option<Result<(String, String), RtError>>)
        ensures
            old(self).remaining().len() == 0 ==> r is None && final(self).remaining()
                == old(self).remaining(),
            old(self).remaining().len() > 0 ==> {
                &&& final(self).remaining() == old(self).remaining().skip(1)
                &&& env_entry_wf(old(self).remaining()[0]) ==> (r matches Some(Ok((name, value)))
                    && name@ == env_name(old(self).remaining()[0]) && value@ == env_value(
                    old(self).remaining()[0],
                ))
                &&& !env_entry_wf(old(self).remaining()[0]) ==> (r matches Some(Err(e))
                    && e is Decode)
            },
    {
        proof {
            use_type_invariant(&*self);
        }
        if self.pos < self.items.len() {
            let entry = self.items[self.pos].clone();
            self.pos = self.pos + 1;
            assert(final(self).remaining() =~= old(self).remaining().skip(1));
            match split_env_entry(entry.as_str()) {
                Some(pair) => Some(Ok(pair)),
                None => Some(Err(RtError::Decode)),
            }
        } else {
            assert(final(self).remaining() =~= old(self).remaining());
            None
        }
    }

    /// Drains the cursor, collecting every split result in order.
    pub fn drain(&mut self) -> (r: Vec<Result<(String, String), RtError>>)
        ensures
            r@.len() == old(self).remaining().len(),
            final(self).remaining().len() == 0,
            forall|i: int|
                0 <= i < r@.len() ==> {
                    &&& env_entry_wf(old(self).remaining()[i]) ==> (r@[i] matches Ok((name, value))
                        && name@ == env_name(old(self).remaining()[i]) && value@ == env_value(
                        old(self).remaining()[i],
                    ))
                    &&& !env_entry_wf(old(self).remaining()[i]) ==> (r@[i] matches Err(e) && e
                        is Decode)
                },
    {
        let mut r: Vec<Result<(String, String), RtError>> = Vec::new();
        loop
            invariant
                r@.len() + self.remaining().len() == old(self).remaining().len(),
                self.remaining() =~= old(self).remaining().skip(r@.len() as int),
                forall|i: int|
                    0 <= i < r@.len() ==> {
                        &&& env_entry_wf(old(self).remaining()[i]) ==> (r@[i] matches Ok(
                            (name, value),
                        ) && name@ == env_name(old(self).remaining()[i]) && value@ == env_value(
                            old(self).remaining()[i],
                        ))
                        &&& !env_entry_wf(old(self).remaining()[i]) ==> (r@[i] matches Err(e) && e
                        is Decode)
                    },
            decreases self.remaining().len(),
        {
            let ghost before = self.remaining();
            match self.next() {
                Some(item) => {
                    proof {
                        assert(before[0] == old(self).remaining()[r@.len() as int]);
                    }
                    r.push(item);
                    assert(self.remaining() =~= old(self).remaining().skip(r@.len() as int));
                },
                None => {
                    return r;
                },
            }
        }
    }
}

} // verus!
