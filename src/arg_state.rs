//! One argument of a command: what the command line declares of it, the
//! value the user has given it, and the tokens it contributes to the
//! argument vector.
use crate::sentence::{push_char, sentence_case};
use vstd::prelude::*;

verus! {

#[verifier::external_type_specification]
#[verifier::external_body]
pub struct ExUuid(uuid::Uuid);

/// `Uuid::new_v4` draws a random identity; nothing is known of its value.
pub assume_specification[ uuid::Uuid::new_v4 ]() -> uuid::Uuid;

/// The sequence of texts held by a vector of strings.
pub open spec fn texts(v: Seq<String>) -> Seq<Seq<char>> {
    v.map_values(|s: String| s@)
}

/// The text of an optional string.
pub open spec fn opt_text(o: Option<String>) -> Option<Seq<char>> {
    match o {
        Some(s) => Some(s@),
        None => None,
    }
}

/// Why an argument vector could not be assembled.
#[derive(Debug, Clone, PartialEq, Eq)]
pub enum ArgsError {
    /// A required single-valued argument is empty; holds the argument's id.
    MissingRequired(String),
    /// A command that needs a sub-command has none selected.
    MissingSubcommand,
    /// A flag or counter has no spelling to emit; holds the argument's id.
    /// This is a defect of the command description, not of the user's input.
    NoCallName(String),
}

/// Which file pickers make sense for a value.
#[derive(Debug, Clone, Copy, PartialEq, Eq)]
pub enum ValueHint {
    /// No path is expected.
    Unknown,
    /// A path to a file.
    FilePath,
    /// A path to a directory.
    DirPath,
    /// A path to a file or a directory.
    AnyPath,
}

/// What the command line does with repeated occurrences of an argument.
#[derive(Debug, Clone, Copy, PartialEq, Eq)]
pub enum ArgAction {
    /// Takes one value.
    SetValue,
    /// Takes many values.
    Append,
    /// A flag that sets `true`.
    SetTrue,
    /// A flag that sets `false`.
    SetFalse,
    /// Counts its occurrences.
    Count,
    /// Any other behaviour; shown as an unset flag.
    Other,
}

/// The declaration of one argument, as the command line describes it.
#[derive(Debug, Clone)]
pub struct ArgSpec {
    pub id: String,
    pub long: Option<String>,
    pub short: Option<char>,
    pub help: Option<String>,
    pub long_help: Option<String>,
    pub required: bool,
    pub require_equals: bool,
    pub action: ArgAction,
    pub default_values: Vec<String>,
    pub possible_values: Vec<String>,
    pub value_hint: ValueHint,
}

/// The value of an argument, one variant per cardinality.
#[derive(Debug)]
pub enum ArgKind {
    String {
        value: (String, uuid::Uuid),
        default: Option<String>,
        possible: Vec<String>,
        value_hint: ValueHint,
    },
    MultipleStrings {
        values: Vec<(String, uuid::Uuid)>,
        default: Vec<String>,
        possible: Vec<String>,
        value_hint: ValueHint,
    },
    Occurences(u8),
    Bool(bool),
}

/// The live state of one argument.
#[derive(Debug)]
pub struct ArgState {
    /// The identifier that errors refer to.
    pub id: String,
    /// The label shown for the argument.
    pub name: String,
    /// The spelling emitted before the value; `None` for a positional argument.
    pub call_name: Option<String>,
    pub desc: Option<String>,
    pub optional: bool,
    pub use_equals: bool,
    pub forbid_empty: bool,
    pub kind: ArgKind,
    pub validation_error: Option<String>,
}

/// The tokens for one value: `call=value` or `call`, `value` after a
/// spelling, the value alone without one.
pub open spec fn value_tokens(call: Option<Seq<char>>, use_equals: bool, v: Seq<char>) -> Seq<
    Seq<char>,
> {
    match call {
        Some(c) => if use_equals {
            seq![c + seq!['='] + v]
        } else {
            seq![c, v]
        },
        None => seq![v],
    }
}

/// The tokens for a sequence of values, each as `value_tokens` gives it, in order.
pub open spec fn values_tokens(call: Option<Seq<char>>, use_equals: bool, vs: Seq<Seq<char>>) -> Seq<
    Seq<char>,
>
    decreases vs.len(),
{
    if vs.len() == 0 {
        Seq::empty()
    } else {
        values_tokens(call, use_equals, vs.drop_last()) + value_tokens(call, use_equals, vs.last())
    }
}

/// Relies on `inflector::cases::sentencecase::to_sentence_case`, which runs
/// `to_case_camel_like` with the options of a sentence (a space between
/// words, only the first one opening in upper case): the walk that
/// `sentence_case` states.
#[verifier::external_body]
fn inflect_sentence_case(s: &str) -> (r: String)
    ensures
        r@ == sentence_case(s@),
{
    inflector::cases::sentencecase::to_sentence_case(s)
}

/// The spelling of an argument: `--long` if it has a long name, else `-s`
/// if it has a short one, else none (a positional argument).
pub open spec fn call_name_of(long: Option<Seq<char>>, short: Option<char>) -> Option<Seq<char>> {
    match long {
        Some(l) => Some(seq!['-', '-'] + l),
        None => match short {
            Some(c) => Some(seq!['-', c]),
            None => None,
        },
    }
}

/// The first of a list of texts, if any.
pub open spec fn first_text(v: Seq<String>) -> Option<Seq<char>> {
    if v.len() > 0 {
        Some(v[0]@)
    } else {
        None
    }
}

/// The empty value that an action starts from.
pub open spec fn fresh_kind(k: ArgKind, a: ArgSpec) -> bool {
    match a.action {
        ArgAction::SetValue => match k {
            ArgKind::String { value, default, possible, value_hint } => {
                &&& value.0@.len() == 0
                &&& opt_text(default) == first_text(a.default_values@)
                &&& possible@ == a.possible_values@
                &&& value_hint == a.value_hint
            },
            _ => false,
        },
        ArgAction::Append => match k {
            ArgKind::MultipleStrings { values, default, possible, value_hint } => {
                &&& values@.len() == 0
                &&& default@ == a.default_values@
                &&& possible@ == a.possible_values@
                &&& value_hint == a.value_hint
            },
            _ => false,
        },
        ArgAction::SetTrue => k == ArgKind::Bool(false),
        ArgAction::SetFalse => k == ArgKind::Bool(false),
        ArgAction::Count => k == ArgKind::Occurences(0),
        ArgAction::Other => k == ArgKind::Bool(false),
    }
}

/// The values of a multi-valued argument; empty for any other kind.
pub open spec fn multi_values(k: ArgKind) -> Seq<(String, uuid::Uuid)> {
    match k {
        ArgKind::MultipleStrings { values, .. } => values@,
        _ => Seq::empty(),
    }
}

/// What a multi-valued argument holds beside its values.
pub open spec fn multi_rest(k: ArgKind) -> (Seq<String>, Seq<String>, ValueHint) {
    match k {
        ArgKind::MultipleStrings { default, possible, value_hint, .. } => (
            default@,
            possible@,
            value_hint,
        ),
        _ => (Seq::empty(), Seq::empty(), ValueHint::Unknown),
    }
}

/// `text` may be the value of an argument with choices `possible`: any text
/// when there are no choices, else one of them, or empty when the argument
/// is optional.
pub open spec fn allowed_value(possible: Seq<String>, optional: bool, text: Seq<char>) -> bool {
    ||| possible.len() == 0
    ||| (optional && text.len() == 0)
    ||| exists|i: int| 0 <= i < possible.len() && (#[trigger] possible[i])@ == text
}

/// Whether `text` is allowed (see `allowed_value`).
fn is_allowed(possible: &Vec<String>, optional: bool, text: &String) -> (r: bool)
    ensures
        r == allowed_value(possible@, optional, text@),
{
    if possible.len() == 0 || (optional && text.as_str().is_empty()) {
        return true;
    }
    let mut i: usize = 0;
    while i < possible.len()
        invariant
            i <= possible@.len(),
            forall|k: int| 0 <= k < i ==> (#[trigger] possible@[k])@ != text@,
        decreases possible@.len() - i,
    {
        if possible[i] == *text {
            return true;
        }
        i = i + 1;
    }
    false
}

/// A copy of a list of strings.
fn copy_strings(v: &Vec<String>) -> (r: Vec<String>)
    ensures
        r@ == v@,
{
    let mut r: Vec<String> = Vec::new();
    let mut i: usize = 0;
    while i < v.len()
        invariant
            i <= v@.len(),
            r@ == v@.subrange(0, i as int),
        decreases v@.len() - i,
    {
        r.push(v[i].clone());
        i = i + 1;
        assert(r@ =~= v@.subrange(0, i as int));
    }
    assert(v@.subrange(0, v@.len() as int) =~= v@);
    r
}

/// A copy of an optional string.
fn copy_opt(o: &Option<String>) -> (r: Option<String>)
    ensures
        r == *o,
{
    match o {
        Some(s) => Some(s.clone()),
        None => None,
    }
}

/// The texts of a list of values, without their identities.
pub open spec fn entry_texts(v: Seq<(String, uuid::Uuid)>) -> Seq<Seq<char>> {
    v.map_values(|p: (String, uuid::Uuid)| p.0@)
}

impl ArgState {
    /// `self` as a fresh state for the declaration `a`: empty value, no
    /// error, label and spelling derived from the declaration.
    pub open spec fn is_fresh(&self, a: ArgSpec) -> bool {
        &&& self.id == a.id
        &&& self.name@ == sentence_case(a.id@)
        &&& self.call() == call_name_of(opt_text(a.long), a.short)
        &&& self.desc == (if a.long_help is Some { a.long_help } else { a.help })
        &&& self.optional == !a.required
        &&& self.use_equals == a.require_equals
        &&& !self.forbid_empty
        &&& self.validation_error is None
        &&& fresh_kind(self.kind, a)
    }

    /// `new` is `self` with `message` shown if the id is `id`, else `self`
    /// as it was.
    pub open spec fn painted(&self, new: ArgState, id: Seq<char>, message: Seq<char>) -> bool {
        &&& new.id == self.id
        &&& new.name == self.name
        &&& new.call_name == self.call_name
        &&& new.desc == self.desc
        &&& new.optional == self.optional
        &&& new.use_equals == self.use_equals
        &&& new.forbid_empty == self.forbid_empty
        &&& new.kind == self.kind
        &&& if self.id@ == id {
            opt_text(new.validation_error) == Some(message)
        } else {
            new.validation_error == self.validation_error
        }
    }

    /// The argument can be assembled: a required single value is filled in,
    /// and a flag or counter has a spelling.
    pub open spec fn ready(&self) -> bool {
        &&& (self.kind is String && !self.optional) ==> self.kind->String_value.0@.len() > 0
        &&& (self.kind is Occurences || self.kind is Bool) ==> self.call_name is Some
    }

    /// `self` and `other` agree on everything but the value, and `self`
    /// holds no error.
    pub open spec fn edited_from(&self, other: ArgState) -> bool {
        &&& self.id == other.id
        &&& self.name == other.name
        &&& self.call_name == other.call_name
        &&& self.desc == other.desc
        &&& self.optional == other.optional
        &&& self.use_equals == other.use_equals
        &&& self.forbid_empty == other.forbid_empty
        &&& self.validation_error is None
    }

    /// The state of a newly declared argument, with its value empty.
    pub fn new(arg: &ArgSpec) -> (r: Self)
        ensures
            r.is_fresh(*arg),
    {
        let kind = match arg.action {
            ArgAction::SetValue => {
                let default = if arg.default_values.len() > 0 {
                    Some(arg.default_values[0].clone())
                } else {
                    None
                };
                ArgKind::String {
                    value: (String::new(), uuid::Uuid::new_v4()),
                    default,
                    possible: copy_strings(&arg.possible_values),
                    value_hint: arg.value_hint,
                }
            },
            ArgAction::Append => ArgKind::MultipleStrings {
                values: Vec::new(),
                default: copy_strings(&arg.default_values),
                possible: copy_strings(&arg.possible_values),
                value_hint: arg.value_hint,
            },
            ArgAction::SetTrue => ArgKind::Bool(false),
            ArgAction::SetFalse => ArgKind::Bool(false),
            ArgAction::Count => ArgKind::Occurences(0),
            ArgAction::Other => ArgKind::Bool(false),
        };
        let call_name = match &arg.long {
            Some(l) => {
                let mut c = String::new();
                push_char(&mut c, '-');
                push_char(&mut c, '-');
                c.append(l.as_str());
                assert(c@ =~= seq!['-', '-'] + l@);
                Some(c)
            },
            None => match arg.short {
                Some(ch) => {
                    let mut c = String::new();
                    push_char(&mut c, '-');
                    push_char(&mut c, ch);
                    assert(c@ =~= seq!['-', ch]);
                    Some(c)
                },
                None => None,
            },
        };
        let desc = if arg.long_help.is_some() {
            copy_opt(&arg.long_help)
        } else {
            copy_opt(&arg.help)
        };
        ArgState {
            id: arg.id.clone(),
            name: inflect_sentence_case(arg.id.as_str()),
            call_name,
            desc,
            optional: !arg.required,
            use_equals: arg.require_equals,
            forbid_empty: false,
            kind,
            validation_error: None,
        }
    }

    /// Shows `message` on the argument if its id is `id`; any other argument
    /// keeps its error as it was.
    pub fn update_validation_error(&mut self, id: &str, message: &str)
        ensures
            old(self).painted(*final(self), id@, message@),
    {
        let target = id.to_owned();
        if self.id == target {
            self.validation_error = Some(message.to_owned());
        }
    }

    /// Removes any error shown on the argument.
    pub fn clear_validation_error(&mut self)
        ensures
            *final(self) == (ArgState { validation_error: None, ..*old(self) }),
    {
        self.validation_error = None;
    }

    /// Sets the text of a single-valued argument to `text` where `text` is
    /// allowed (see `allowed_value`); does nothing to another kind or with
    /// a text that is not allowed.
    pub fn set_single(&mut self, text: String) -> (r: bool)
        ensures
            r == (old(self).kind is String && allowed_value(
                old(self).kind->String_possible@,
                old(self).optional,
                text@,
            )),
            !r ==> *final(self) == *old(self),
            r ==> final(self).edited_from(*old(self)),
            r ==> match (old(self).kind, final(self).kind) {
                (
                    ArgKind::String { value: v0, default: d0, possible: p0, value_hint: h0 },
                    ArgKind::String { value: v1, default: d1, possible: p1, value_hint: h1 },
                ) => v1 == (text, v0.1) && d1 == d0 && p1 == p0 && h1 == h0,
                _ => false,
            },
    {
        let optional = self.optional;
        match &mut self.kind {
            ArgKind::String { value, possible, .. } => {
                if !is_allowed(possible, optional, &text) {
                    return false;
                }
                value.0 = text;
                self.validation_error = None;
                true
            },
            _ => false,
        }
    }
    /// The spelling of the argument, as text.
    pub open spec fn call(&self) -> Option<Seq<char>> {
        opt_text(self.call_name)
    }

    /// What the argument contributes to the argument vector, or why it cannot.
    pub open spec fn tokens(&self) -> Result<Seq<Seq<char>>, ArgsError> {
        match self.kind {
            ArgKind::String { value, .. } => if value.0@.len() > 0 {
                Ok(value_tokens(self.call(), self.use_equals, value.0@))
            } else if !self.optional {
                Err(ArgsError::MissingRequired(self.id))
            } else {
                Ok(Seq::empty())
            },
            ArgKind::MultipleStrings { values, .. } => Ok(
                values_tokens(self.call(), self.use_equals, entry_texts(values@)),
            ),
            ArgKind::Occurences(n) => match self.call() {
                Some(c) => Ok(Seq::new(n as nat, |i: int| c)),
                None => Err(ArgsError::NoCallName(self.id)),
            },
            ArgKind::Bool(b) => match self.call() {
                Some(c) => if b {
                    Ok(seq![c])
                } else {
                    Ok(Seq::empty())
                },
                None => Err(ArgsError::NoCallName(self.id)),
            },
        }
    }

    /// Appends the argument's tokens to `args`; fails, and hands back no
    /// partial vector, as `tokens` says.
    pub fn get_cmd_args(&self, args: Vec<String>) -> (r: Result<Vec<String>, ArgsError>)
        ensures
            match self.tokens() {
                Ok(t) => r is Ok && texts(r->Ok_0@) == texts(args@) + t,
                Err(e) => r == Err::<Vec<String>, ArgsError>(e),
            },
    {
        let ghost start = texts(args@);
        let mut args = args;
        match &self.kind {
            ArgKind::String { value, .. } => {
                if !value.0.as_str().is_empty() {
                    push_value(&mut args, &self.call_name, self.use_equals, &value.0);
                } else if !self.optional {
                    return Err(ArgsError::MissingRequired(self.id.clone()));
                }
            },
            ArgKind::MultipleStrings { values, .. } => {
                let mut i: usize = 0;
                while i < values.len()
                    invariant
                        i <= values@.len(),
                        texts(args@) == start + values_tokens(
                            self.call(),
                            self.use_equals,
                            entry_texts(values@.subrange(0, i as int)),
                        ),
                    decreases values@.len() - i,
                {
                    assert(entry_texts(values@.subrange(0, i + 1)).drop_last() =~= entry_texts(
                        values@.subrange(0, i as int),
                    ));
                    push_value(&mut args, &self.call_name, self.use_equals, &values[i].0);
                    i = i + 1;
                }
                assert(values@.subrange(0, values@.len() as int) =~= values@);
            },
            ArgKind::Occurences(n) => {
                match &self.call_name {
                    Some(c) => {
                        let mut i: u8 = 0;
                        while i < *n
                            invariant
                                i <= *n,
                                texts(args@) == start + Seq::new(i as nat, |j: int| c@),
                            decreases *n - i,
                        {
                            let ghost prev = args@;
                            args.push(c.clone());
                            assert(texts(args@) =~= texts(prev).push(c@));
                            i = i + 1;
                            assert(texts(args@) =~= start + Seq::new(i as nat, |j: int| c@));
                        }
                    },
                    None => {
                        return Err(ArgsError::NoCallName(self.id.clone()));
                    },
                }
            },
            ArgKind::Bool(b) => {
                match &self.call_name {
                    Some(c) => {
                        if *b {
                            args.push(c.clone());
                        }
                    },
                    None => {
                        return Err(ArgsError::NoCallName(self.id.clone()));
                    },
                }
            },
        }
        assert(self.tokens() is Ok ==> texts(args@) =~= start + self.tokens()->Ok_0);
        Ok(args)
    }
    /// Appends a value, with a fresh identity, to a multi-valued argument
    /// where `text` is allowed (see `allowed_value`; a row may stay empty);
    /// the rows already there keep their texts and identities. Does nothing
    /// to another kind or with a text that is not allowed.
    pub fn add_multiple(&mut self, text: String) -> (r: bool)
        ensures
            r == (old(self).kind is MultipleStrings && allowed_value(
                multi_rest(old(self).kind).1,
                true,
                text@,
            )),
            r ==> multi_values(final(self).kind).drop_last() == multi_values(old(self).kind),
            !r ==> *final(self) == *old(self),
            r ==> final(self).edited_from(*old(self)),
            r ==> final(self).kind is MultipleStrings,
            r ==> multi_rest(final(self).kind) == multi_rest(old(self).kind),
            r ==> entry_texts(multi_values(final(self).kind)) == entry_texts(
                multi_values(old(self).kind),
            ).push(text@),
    {
        match &mut self.kind {
            ArgKind::MultipleStrings { values, possible, .. } => {
                if !is_allowed(possible, true, &text) {
                    return false;
                }
                let ghost before = values@;
                values.push((text, uuid::Uuid::new_v4()));
                assert(entry_texts(values@) =~= entry_texts(before).push(text@));
                assert(values@.drop_last() =~= before);
                self.validation_error = None;
                true
            },
            _ => false,
        }
    }

    /// Removes the value at `index` from a multi-valued argument; does
    /// nothing to another kind or where there is no such value.
    pub fn remove_multiple(&mut self, index: usize) -> (r: bool)
        ensures
            r == (old(self).kind is MultipleStrings && index < multi_values(old(self).kind).len()),
            !r ==> *final(self) == *old(self),
            r ==> final(self).edited_from(*old(self)),
            r ==> final(self).kind is MultipleStrings,
            r ==> multi_rest(final(self).kind) == multi_rest(old(self).kind),
            r ==> multi_values(final(self).kind) == multi_values(old(self).kind).remove(
                index as int,
            ),
    {
        match &mut self.kind {
            ArgKind::MultipleStrings { values, .. } => {
                if index < values.len() {
                    values.remove(index);
                    self.validation_error = None;
                    true
                } else {
                    false
                }
            },
            _ => false,
        }
    }

    /// Replaces the values of a multi-valued argument by its defaults, each
    /// with a fresh identity; does nothing to another kind.
    pub fn reset_multiple_to_default(&mut self) -> (r: bool)
        ensures
            r == old(self).kind is MultipleStrings,
            !r ==> *final(self) == *old(self),
            r ==> final(self).edited_from(*old(self)),
            r ==> final(self).kind is MultipleStrings,
            r ==> multi_rest(final(self).kind) == multi_rest(old(self).kind),
            r ==> entry_texts(multi_values(final(self).kind)) == texts(
                multi_rest(old(self).kind).0,
            ),
    {
        match &mut self.kind {
            ArgKind::MultipleStrings { values, default, .. } => {
                let mut fresh: Vec<(String, uuid::Uuid)> = Vec::new();
                let mut i: usize = 0;
                while i < default.len()
                    invariant
                        i <= default@.len(),
                        entry_texts(fresh@) == texts(default@.subrange(0, i as int)),
                    decreases default@.len() - i,
                {
                    let ghost prev = fresh@;
                    let t = default[i].clone();
                    assert(t@ == default@[i as int]@);
                    fresh.push((t, uuid::Uuid::new_v4()));
                    assert(entry_texts(fresh@) =~= entry_texts(prev).push(default@[i as int]@));
                    assert(texts(default@.subrange(0, i + 1)) =~= texts(
                        default@.subrange(0, i as int),
                    ).push(default@[i as int]@));
                    i = i + 1;
                    assert(entry_texts(fresh@) =~= texts(default@.subrange(0, i as int)));
                }
                assert(default@.subrange(0, default@.len() as int) =~= default@);
                *values = fresh;
                self.validation_error = None;
                true
            },
            _ => false,
        }
    }

    /// Flips a flag; does nothing to another kind.
    pub fn toggle_flag(&mut self) -> (r: bool)
        ensures
            r == old(self).kind is Bool,
            !r ==> *final(self) == *old(self),
            r ==> final(self).edited_from(*old(self)),
            r ==> final(self).kind == ArgKind::Bool(!(old(self).kind->Bool_0)),
    {
        match &mut self.kind {
            ArgKind::Bool(b) => {
                *b = !*b;
                self.validation_error = None;
                true
            },
            _ => false,
        }
    }

    /// Counts one more occurrence of a counter, up to the largest count it
    /// can hold; does nothing to another kind.
    pub fn increment_counter(&mut self) -> (r: bool)
        ensures
            r == old(self).kind is Occurences,
            !r ==> *final(self) == *old(self),
            r ==> final(self).edited_from(*old(self)),
            r ==> final(self).kind == ArgKind::Occurences(
                if old(self).kind->Occurences_0 < u8::MAX {
                    (old(self).kind->Occurences_0 + 1) as u8
                } else {
                    u8::MAX
                },
            ),
    {
        match &mut self.kind {
            ArgKind::Occurences(n) => {
                if *n < u8::MAX {
                    *n = *n + 1;
                }
                self.validation_error = None;
                true
            },
            _ => false,
        }
    }

    /// Counts one occurrence less of a counter; a count of zero stays zero.
    /// Does nothing to another kind.
    pub fn decrement_counter(&mut self) -> (r: bool)
        ensures
            r == old(self).kind is Occurences,
            !r ==> *final(self) == *old(self),
            r ==> final(self).edited_from(*old(self)),
            r ==> final(self).kind == ArgKind::Occurences(
                if old(self).kind->Occurences_0 > 0 {
                    (old(self).kind->Occurences_0 - 1) as u8
                } else {
                    0
                },
            ),
    {
        match &mut self.kind {
            ArgKind::Occurences(n) => {
                if *n > 0 {
                    *n = *n - 1;
                }
                self.validation_error = None;
                true
            },
            _ => false,
        }
    }
}

/// `a` and `b` agree on what assembly reads: id, spelling, joining,
/// optionality, and the current value (the texts of a list, not their
/// identities).
pub open spec fn same_values(a: ArgState, b: ArgState) -> bool {
    &&& a.id == b.id
    &&& a.call() == b.call()
    &&& a.use_equals == b.use_equals
    &&& a.optional == b.optional
    &&& match (a.kind, b.kind) {
        (ArgKind::String { value: va, .. }, ArgKind::String { value: vb, .. }) => va.0@ == vb.0@,
        (
            ArgKind::MultipleStrings { values: xa, .. },
            ArgKind::MultipleStrings { values: xb, .. },
        ) => entry_texts(xa@) == entry_texts(xb@),
        (ArgKind::Occurences(x), ArgKind::Occurences(y)) => x == y,
        (ArgKind::Bool(x), ArgKind::Bool(y)) => x == y,
        _ => false,
    }
}

/// The tokens of an argument are a function of what `same_values` compares:
/// identities, defaults, choices, descriptions and shown errors play no part.
pub proof fn lemma_tokens_depend_on_values(a: ArgState, b: ArgState)
    requires
        same_values(a, b),
    ensures
        a.tokens() == b.tokens(),
{
}

impl Clone for ArgKind {
    fn clone(&self) -> Self {
        match self {
            ArgKind::String { value, default, possible, value_hint } => ArgKind::String {
                value: (value.0.clone(), value.1),
                default: copy_opt(default),
                possible: copy_strings(possible),
                value_hint: *value_hint,
            },
            ArgKind::MultipleStrings { values, default, possible, value_hint } => {
                let mut copied: Vec<(String, uuid::Uuid)> = Vec::new();
                let mut i: usize = 0;
                while i < values.len()
                    invariant
                        i <= values@.len(),
                    decreases values@.len() - i,
                {
                    copied.push((values[i].0.clone(), values[i].1));
                    i = i + 1;
                }
                ArgKind::MultipleStrings {
                    values: copied,
                    default: copy_strings(default),
                    possible: copy_strings(possible),
                    value_hint: *value_hint,
                }
            },
            ArgKind::Occurences(n) => ArgKind::Occurences(*n),
            ArgKind::Bool(b) => ArgKind::Bool(*b),
        }
    }
}

impl Clone for ArgState {
    fn clone(&self) -> Self {
        ArgState {
            id: self.id.clone(),
            name: self.name.clone(),
            call_name: copy_opt(&self.call_name),
            desc: copy_opt(&self.desc),
            optional: self.optional,
            use_equals: self.use_equals,
            forbid_empty: self.forbid_empty,
            kind: self.kind.clone(),
            validation_error: copy_opt(&self.validation_error),
        }
    }
}

/// Appends the tokens of one value to `args`, as `value_tokens` gives them.
fn push_value(args: &mut Vec<String>, call_name: &Option<String>, use_equals: bool, value: &String)
    ensures
        texts(final(args)@) == texts(old(args)@) + value_tokens(
            opt_text(*call_name),
            use_equals,
            value@,
        ),
{
    let ghost start = texts(args@);
    match call_name {
        Some(c) => {
            if use_equals {
                let mut joined = c.clone();
                push_char(&mut joined, '=');
                joined.append(value.as_str());
                assert(joined@ =~= c@ + seq!['='] + value@);
                args.push(joined);
            } else {
                args.push(c.clone());
                args.push(value.clone());
            }
        },
        None => {
            args.push(value.clone());
        },
    }
    assert(texts(args@) =~= start + value_tokens(opt_text(*call_name), use_equals, value@));
}

} // verus!
