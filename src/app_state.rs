//! The state tree of a whole command: the values of its own arguments and,
//! for a command with sub-commands, the branch that is selected.
use crate::arg_state::{
    entry_texts, lemma_tokens_depend_on_values, same_values, texts, ArgKind, ArgSpec, ArgState,
    ArgsError,
};
use vstd::prelude::*;

verus! {

/// The declaration of one command: its arguments and the commands that may
/// follow it, given by their index in the enclosing [`Schema`].
#[derive(Debug, Clone)]
pub struct CommandSpec {
    pub name: String,
    pub about: Option<String>,
    pub args: Vec<ArgSpec>,
    pub subcommands: Vec<usize>,
    pub subcommand_required: bool,
}

/// All the commands of a program; the first one is the program itself.
#[derive(Debug, Clone)]
pub struct Schema {
    pub commands: Vec<CommandSpec>,
}

impl Schema {
    /// Every sub-command reference names a command of the schema.
    pub open spec fn wf(&self) -> bool {
        forall|c: int, j: int|
            0 <= c < self.commands@.len() && 0 <= j < self.commands@[c].subcommands@.len()
                ==> #[trigger] self.commands@[c].subcommands@[j] < self.commands@.len()
    }
}

/// Command `d` of `schema` is a sub-command of command `c` named `name`.
pub open spec fn is_sub_named(schema: Schema, c: int, d: int, name: Seq<char>) -> bool {
    &&& exists|j: int|
        0 <= j < schema.commands@[c].subcommands@.len() && #[trigger] schema.commands@[c].subcommands@[j]
            == d
    &&& 0 <= d < schema.commands@.len()
    &&& schema.commands@[d].name@ == name
}

/// The live state of one command.
#[derive(Debug)]
pub struct AppState {
    /// The index of the command in its schema.
    pub command: usize,
    /// One state per declared argument, in declaration order.
    pub args: Vec<ArgState>,
    /// A sub-command must be selected before the command can run.
    pub subcommand_required: bool,
    /// The selected sub-command: its name and its state.
    pub current: Option<(String, Box<AppState>)>,
}

/// The tokens of a sequence of arguments, in order, or the first error.
pub open spec fn args_tokens(args: Seq<ArgState>) -> Result<Seq<Seq<char>>, ArgsError>
    decreases args.len(),
{
    if args.len() == 0 {
        Ok(Seq::empty())
    } else {
        match args_tokens(args.drop_last()) {
            Err(e) => Err(e),
            Ok(t) => match args.last().tokens() {
                Err(e) => Err(e),
                Ok(u) => Ok(t + u),
            },
        }
    }
}

impl AppState {
    /// `self` as the fresh state of command `c` of `schema`.
    pub open spec fn is_fresh(&self, schema: Schema, c: int) -> bool {
        let spec = schema.commands@[c];
        &&& self.command == c
        &&& self.args@.len() == spec.args@.len()
        &&& forall|i: int| 0 <= i < self.args@.len() ==> #[trigger] self.args@[i].is_fresh(spec.args@[i])
        &&& self.subcommand_required == spec.subcommand_required
        &&& self.current is None
    }

    /// The argument vector of the command, or why it cannot be assembled:
    /// its own arguments in declaration order, then the name of the selected
    /// sub-command and that sub-command's vector.
    pub open spec fn tokens(&self) -> Result<Seq<Seq<char>>, ArgsError>
        decreases self,
    {
        match args_tokens(self.args@) {
            Err(e) => Err(e),
            Ok(t) => match self.current {
                Some((name, child)) => match child.tokens() {
                    Err(e) => Err(e),
                    Ok(u) => Ok(t + seq![name@] + u),
                },
                None => if self.subcommand_required {
                    Err(ArgsError::MissingSubcommand)
                } else {
                    Ok(t)
                },
            },
        }
    }

    /// The fresh state of command `c` of `schema`: every argument empty, no
    /// sub-command selected.
    pub fn new(schema: &Schema, c: usize) -> (r: Self)
        requires
            c < schema.commands@.len(),
        ensures
            r.is_fresh(*schema, c as int),
    {
        let spec = &schema.commands[c];
        let mut args: Vec<ArgState> = Vec::new();
        let mut i: usize = 0;
        while i < spec.args.len()
            invariant
                spec == schema.commands@[c as int],
                i <= spec.args@.len(),
                args@.len() == i,
                forall|k: int| 0 <= k < i ==> #[trigger] args@[k].is_fresh(spec.args@[k]),
            decreases spec.args@.len() - i,
        {
            args.push(ArgState::new(&spec.args[i]));
            i = i + 1;
        }
        AppState { command: c, args, subcommand_required: spec.subcommand_required, current: None }
    }

    /// Appends the command's argument vector to `args`; fails, and hands
    /// back no partial vector, as `tokens` says.
    pub fn get_cmd_args(&self, args: Vec<String>) -> (r: Result<Vec<String>, ArgsError>)
        ensures
            match self.tokens() {
                Ok(t) => r is Ok && texts(r->Ok_0@) == texts(args@) + t,
                Err(e) => r == Err::<Vec<String>, ArgsError>(e),
            },
        decreases self,
    {
        let ghost start = texts(args@);
        let mut args = args;
        let mut i: usize = 0;
        while i < self.args.len()
            invariant
                i <= self.args@.len(),
                args_tokens(self.args@.subrange(0, i as int)) is Ok,
                texts(args@) == start + args_tokens(self.args@.subrange(0, i as int))->Ok_0,
            decreases self.args@.len() - i,
        {
            assert(self.args@.subrange(0, i + 1).drop_last() =~= self.args@.subrange(0, i as int));
            match self.args[i].get_cmd_args(args) {
                Ok(next) => {
                    args = next;
                },
                Err(e) => {
                    assert(args_tokens(self.args@.subrange(0, i + 1)) == Err::<
                        Seq<Seq<char>>,
                        ArgsError,
                    >(e));
                    proof {
                        lemma_args_tokens_err_extends(self.args@, (i + 1) as int);
                    }
                    return Err(e);
                },
            }
            i = i + 1;
        }
        assert(self.args@.subrange(0, self.args@.len() as int) =~= self.args@);
        match &self.current {
            Some((name, child)) => {
                let ghost before = args@;
                args.push(name.clone());
                assert(texts(args@) =~= texts(before).push(name@));
                let r = child.get_cmd_args(args);
                proof {
                    if let Ok(u) = child.tokens() {
                        let t = args_tokens(self.args@)->Ok_0;
                        assert(texts(r->Ok_0@) =~= start + (t + seq![name@] + u));
                    }
                }
                r
            },
            None => {
                if self.subcommand_required {
                    Err(ArgsError::MissingSubcommand)
                } else {
                    Ok(args)
                }
            },
        }
    }

    /// The number of selected sub-commands below this node.
    pub open spec fn depth(&self) -> nat
        decreases self,
    {
        match self.current {
            Some((_, child)) => 1 + child.depth(),
            None => 0,
        }
    }

    /// Every argument of the tree can be assembled, and every command that
    /// needs a sub-command has one selected.
    pub open spec fn ready(&self) -> bool
        decreases self,
    {
        &&& forall|i: int| 0 <= i < self.args@.len() ==> (#[trigger] self.args@[i]).ready()
        &&& match self.current {
            Some((_, child)) => child.ready(),
            None => !self.subcommand_required,
        }
    }

    /// Every node names a command of `schema`.
    pub open spec fn wf(&self, schema: Schema) -> bool
        decreases self,
    {
        &&& self.command < schema.commands@.len()
        &&& match self.current {
            Some((_, child)) => child.wf(schema),
            None => true,
        }
    }

    /// The node reached from `self` by following the selected sub-commands
    /// named in `path`, if each of them is selected.
    pub open spec fn node_at(&self, path: Seq<Seq<char>>) -> Option<AppState>
        decreases path.len(),
    {
        if path.len() == 0 {
            Some(*self)
        } else {
            match self.current {
                Some((name, child)) => if name@ == path[0] {
                    child.node_at(path.drop_first())
                } else {
                    None
                },
                None => None,
            }
        }
    }

    /// `new` is `self` with `chosen` selected here: a fresh state of the
    /// sub-command of that name takes the place of any earlier selection.
    pub open spec fn selected_here(&self, new: AppState, schema: Schema, chosen: Seq<char>) -> bool {
        &&& new.command == self.command
        &&& new.args == self.args
        &&& new.subcommand_required == self.subcommand_required
        &&& match new.current {
            Some((name, child)) => {
                &&& name@ == chosen
                &&& is_sub_named(schema, self.command as int, child.command as int, chosen)
                &&& child.is_fresh(schema, child.command as int)
            },
            None => false,
        }
    }

    /// `new` is `self` with `chosen` selected at the node that `path` leads
    /// to, and nothing else changed.
    pub open spec fn selected_at(
        &self,
        new: AppState,
        schema: Schema,
        path: Seq<Seq<char>>,
        chosen: Seq<char>,
    ) -> bool
        decreases path.len(),
    {
        if path.len() == 0 {
            self.selected_here(new, schema, chosen)
        } else {
            match (self.current, new.current) {
                (Some((n0, c0)), Some((n1, c1))) => {
                    &&& n0@ == path[0]
                    &&& n1 == n0
                    &&& new.command == self.command
                    &&& new.args == self.args
                    &&& new.subcommand_required == self.subcommand_required
                    &&& c0.selected_at(*c1, schema, path.drop_first(), chosen)
                },
                _ => false,
            }
        }
    }

    /// Selects the sub-command named `chosen` at the node that `path` leads
    /// to. The branch starts afresh: edits made in an earlier selection are
    /// dropped. Returns `false`, and changes nothing, where `path` leads
    /// nowhere or that node has no sub-command of that name.
    pub fn select_subcommand(&mut self, schema: &Schema, path: &Vec<String>, chosen: &str) -> (r:
        bool)
        requires
            schema.wf(),
            old(self).wf(*schema),
        ensures
            r == (old(self).node_at(texts(path@)) is Some && exists|d: int|
                is_sub_named(
                    *schema,
                    old(self).node_at(texts(path@))->Some_0.command as int,
                    d,
                    chosen@,
                )),
            !r ==> *final(self) == *old(self),
            r ==> old(self).selected_at(*final(self), *schema, texts(path@), chosen@),
            final(self).wf(*schema),
    {
        assert(texts(path@).subrange(0, path@.len() as int) =~= texts(path@));
        self.select_from(schema, path, 0, chosen)
    }

    fn select_from(&mut self, schema: &Schema, path: &Vec<String>, depth: usize, chosen: &str) -> (r:
        bool)
        requires
            schema.wf(),
            old(self).wf(*schema),
            depth <= path@.len(),
        ensures
            r == (old(self).node_at(texts(path@).subrange(depth as int, path@.len() as int)) is Some
                && exists|d: int|
                is_sub_named(
                    *schema,
                    old(self).node_at(
                        texts(path@).subrange(depth as int, path@.len() as int),
                    )->Some_0.command as int,
                    d,
                    chosen@,
                )),
            !r ==> *final(self) == *old(self),
            r ==> old(self).selected_at(
                *final(self),
                *schema,
                texts(path@).subrange(depth as int, path@.len() as int),
                chosen@,
            ),
            final(self).wf(*schema),
        decreases path@.len() - depth,
    {
        let ghost rest = texts(path@).subrange(depth as int, path@.len() as int);
        if depth == path.len() {
            assert(rest.len() == 0);
            return self.select_here(schema, chosen);
        }
        assert(rest.drop_first() =~= texts(path@).subrange(depth + 1, path@.len() as int));
        match &mut self.current {
            Some((name, child)) => {
                if *name == path[depth] {
                    child.select_from(schema, path, depth + 1, chosen)
                } else {
                    false
                }
            },
            None => false,
        }
    }

    fn select_here(&mut self, schema: &Schema, chosen: &str) -> (r: bool)
        requires
            schema.wf(),
            old(self).wf(*schema),
        ensures
            r == exists|d: int| is_sub_named(*schema, old(self).command as int, d, chosen@),
            !r ==> *final(self) == *old(self),
            r ==> old(self).selected_here(*final(self), *schema, chosen@),
            final(self).wf(*schema),
    {
        let target = chosen.to_owned();
        let subs = &schema.commands[self.command].subcommands;
        let mut j: usize = 0;
        while j < subs.len()
            invariant
                *self == *old(self),
                subs == schema.commands@[old(self).command as int].subcommands,
                schema.wf(),
                old(self).command < schema.commands@.len(),
                target@ == chosen@,
                j <= subs@.len(),
                forall|k: int|
                    0 <= k < j ==> schema.commands@[#[trigger] subs@[k] as int].name@ != chosen@,
            decreases subs@.len() - j,
        {
            let d = subs[j];
            assert(d < schema.commands@.len());
            if schema.commands[d].name == target {
                assert(schema.commands@[self.command as int].subcommands@[j as int] == d);
                assert(is_sub_named(*schema, self.command as int, d as int, chosen@));
                let child = AppState::new(schema, d);
                assert(child.wf(*schema));
                self.current = Some((target, Box::new(child)));
                return true;
            }
            j = j + 1;
        }
        false
    }

    /// `new` is `self` with every argument of the tree, in every selected
    /// branch, changed as `ArgState::painted` says.
    pub open spec fn painted(&self, new: AppState, id: Seq<char>, message: Seq<char>) -> bool
        decreases self,
    {
        &&& new.command == self.command
        &&& new.subcommand_required == self.subcommand_required
        &&& new.args@.len() == self.args@.len()
        &&& forall|i: int|
            0 <= i < self.args@.len() ==> #[trigger] self.args@[i].painted(
                new.args@[i],
                id,
                message,
            )
        &&& match (self.current, new.current) {
            (Some((n0, c0)), Some((n1, c1))) => n1 == n0 && c0.painted(*c1, id, message),
            (None, None) => true,
            _ => false,
        }
    }

    /// `new` is `self` with no error shown anywhere in the tree.
    pub open spec fn cleared(&self, new: AppState) -> bool
        decreases self,
    {
        &&& new.command == self.command
        &&& new.subcommand_required == self.subcommand_required
        &&& new.args@.len() == self.args@.len()
        &&& forall|i: int|
            0 <= i < self.args@.len() ==> #[trigger] new.args@[i] == (ArgState {
                validation_error: None,
                ..self.args@[i]
            })
        &&& match (self.current, new.current) {
            (Some((n0, c0)), Some((n1, c1))) => n1 == n0 && c0.cleared(*c1),
            (None, None) => true,
            _ => false,
        }
    }

    /// Shows `message` on every argument of the tree whose id is `id`; every
    /// other argument keeps its error as it was.
    pub fn update_validation_error(&mut self, id: &str, message: &str)
        ensures
            old(self).painted(*final(self), id@, message@),
        decreases old(self).depth(),
    {
        let mut i: usize = 0;
        while i < self.args.len()
            invariant
                i <= self.args@.len(),
                self.command == old(self).command,
                self.subcommand_required == old(self).subcommand_required,
                self.current == old(self).current,
                self.args@.len() == old(self).args@.len(),
                forall|k: int| 0 <= k < i ==> #[trigger] old(self).args@[k].painted(
                    self.args@[k],
                    id@,
                    message@,
                ),
                forall|k: int| i <= k < self.args@.len() ==> #[trigger] self.args@[k] == old(self).args@[k],
            decreases self.args@.len() - i,
        {
            self.args[i].update_validation_error(id, message);
            i = i + 1;
        }
        match &mut self.current {
            Some((_, child)) => {
                child.update_validation_error(id, message);
            },
            None => {},
        }
    }

    /// Removes every error shown in the tree.
    pub fn clear_validation_errors(&mut self)
        ensures
            old(self).cleared(*final(self)),
        decreases old(self).depth(),
    {
        let mut i: usize = 0;
        while i < self.args.len()
            invariant
                i <= self.args@.len(),
                self.command == old(self).command,
                self.subcommand_required == old(self).subcommand_required,
                self.current == old(self).current,
                self.args@.len() == old(self).args@.len(),
                forall|k: int| 0 <= k < i ==> #[trigger] self.args@[k] == (ArgState {
                    validation_error: None,
                    ..old(self).args@[k]
                }),
                forall|k: int| i <= k < self.args@.len() ==> #[trigger] self.args@[k] == old(self).args@[k],
            decreases self.args@.len() - i,
        {
            self.args[i].clear_validation_error();
            i = i + 1;
        }
        match &mut self.current {
            Some((_, child)) => {
                child.clear_validation_errors();
            },
            None => {},
        }
    }
}

impl AppState {
    fn duplicate(&self) -> (r: Self)
        decreases self,
    {
        let mut args: Vec<ArgState> = Vec::new();
        let mut i: usize = 0;
        while i < self.args.len()
            invariant
                i <= self.args@.len(),
            decreases self.args@.len() - i,
        {
            args.push(self.args[i].clone());
            i = i + 1;
        }
        let current = match &self.current {
            Some((name, child)) => Some((name.clone(), Box::new(child.duplicate()))),
            None => None,
        };
        AppState {
            command: self.command,
            args,
            subcommand_required: self.subcommand_required,
            current,
        }
    }
}

impl Clone for AppState {
    fn clone(&self) -> Self {
        self.duplicate()
    }
}

/// An error in a prefix of the arguments is the error of all of them.
proof fn lemma_args_tokens_err_extends(args: Seq<ArgState>, n: int)
    requires
        0 <= n <= args.len(),
        args_tokens(args.subrange(0, n)) is Err,
    ensures
        args_tokens(args) == args_tokens(args.subrange(0, n)),
    decreases args.len() - n,
{
    if n < args.len() {
        assert(args.subrange(0, n + 1).drop_last() =~= args.subrange(0, n));
        assert(args_tokens(args.subrange(0, n + 1)) == args_tokens(args.subrange(0, n)));
        lemma_args_tokens_err_extends(args, n + 1);
    } else {
        assert(args.subrange(0, n) =~= args);
    }
}

/// Arguments that each assemble, assemble together.
proof fn lemma_args_tokens_ok(args: Seq<ArgState>)
    requires
        forall|i: int| 0 <= i < args.len() ==> (#[trigger] args[i]).tokens() is Ok,
    ensures
        args_tokens(args) is Ok,
    decreases args.len(),
{
    if args.len() > 0 {
        assert(args.last() == args[args.len() - 1]);
        lemma_args_tokens_ok(args.drop_last());
    }
}

/// Arguments whose tokens agree one by one assemble to the same tokens.
proof fn lemma_args_tokens_agree(xs: Seq<ArgState>, ys: Seq<ArgState>)
    requires
        xs.len() == ys.len(),
        forall|i: int| 0 <= i < xs.len() ==> (#[trigger] xs[i]).tokens() == ys[i].tokens(),
    ensures
        args_tokens(xs) == args_tokens(ys),
    decreases xs.len(),
{
    if xs.len() > 0 {
        assert(xs.last().tokens() == ys.last().tokens());
        lemma_args_tokens_agree(xs.drop_last(), ys.drop_last());
    }
}

/// Assembly reads the values alone: a tree and the same tree with its errors
/// cleared, or with an error shown, assemble to the same tokens.
pub proof fn lemma_errors_do_not_change_tokens(a: AppState, b: AppState, id: Seq<char>, message: Seq<
    char,
>)
    requires
        a.cleared(b) || a.painted(b, id, message),
    ensures
        a.tokens() == b.tokens(),
    decreases a,
{
    assert forall|i: int| 0 <= i < a.args@.len() implies (#[trigger] a.args@[i]).tokens()
        == b.args@[i].tokens() by {
        if a.cleared(b) {
            assert(b.args@[i] == (ArgState { validation_error: None, ..a.args@[i] }));
        } else {
            assert(a.args@[i].painted(b.args@[i], id, message));
        }
    }
    lemma_args_tokens_agree(a.args@, b.args@);
    match (a.current, b.current) {
        (Some((_, ca)), Some((_, cb))) => {
            lemma_errors_do_not_change_tokens(*ca, *cb, id, message);
        },
        _ => {},
    }
}

/// `a` and `b` agree, node by node, on what assembly reads: each argument
/// as `same_values` says, the need for a sub-command, and the name of the
/// selected one.
pub open spec fn same_tree_values(a: AppState, b: AppState) -> bool
    decreases a,
{
    &&& a.subcommand_required == b.subcommand_required
    &&& a.args@.len() == b.args@.len()
    &&& forall|i: int| 0 <= i < a.args@.len() ==> #[trigger] same_values(a.args@[i], b.args@[i])
    &&& match (a.current, b.current) {
        (Some((na, ca)), Some((nb, cb))) => na@ == nb@ && same_tree_values(*ca, *cb),
        (None, None) => true,
        _ => false,
    }
}

/// Assembly is deterministic: the argument vector of a tree, or its error,
/// is a function of the declaration order and the current values alone.
pub proof fn lemma_tree_tokens_depend_on_values(a: AppState, b: AppState)
    requires
        same_tree_values(a, b),
    ensures
        a.tokens() == b.tokens(),
    decreases a,
{
    assert forall|i: int| 0 <= i < a.args@.len() implies (#[trigger] a.args@[i]).tokens()
        == b.args@[i].tokens() by {
        lemma_tokens_depend_on_values(a.args@[i], b.args@[i]);
    }
    lemma_args_tokens_agree(a.args@, b.args@);
    match (a.current, b.current) {
        (Some((_, ca)), Some((_, cb))) => {
            lemma_tree_tokens_depend_on_values(*ca, *cb);
        },
        _ => {},
    }
}

/// A ready argument assembles.
proof fn lemma_ready_arg_assembles(a: ArgState)
    requires
        a.ready(),
    ensures
        a.tokens() is Ok,
{
}

/// Assembly succeeds on every ready tree: with each required single value
/// filled in and each required sub-command selected, the argument vector is
/// the one `tokens` gives, which depends on nothing but the declaration
/// order and the current values.
pub proof fn lemma_ready_assembles(s: AppState)
    requires
        s.ready(),
    ensures
        s.tokens() is Ok,
    decreases s,
{
    assert forall|i: int| 0 <= i < s.args@.len() implies (#[trigger] s.args@[i]).tokens() is Ok by {
        lemma_ready_arg_assembles(s.args@[i]);
    }
    lemma_args_tokens_ok(s.args@);
    match s.current {
        Some((_, child)) => {
            lemma_ready_assembles(*child);
        },
        None => {},
    }
}

/// A required single-valued argument left empty makes assembly fail with
/// `MissingRequired` and its id, when the arguments before it assemble.
pub proof fn lemma_missing_required(s: AppState, i: int)
    requires
        0 <= i < s.args@.len(),
        s.args@[i].kind is String,
        s.args@[i].kind->String_value.0@.len() == 0,
        !s.args@[i].optional,
        forall|k: int| 0 <= k < i ==> (#[trigger] s.args@[k]).tokens() is Ok,
    ensures
        s.tokens() == Err::<Seq<Seq<char>>, ArgsError>(ArgsError::MissingRequired(s.args@[i].id)),
{
    let pre = s.args@.subrange(0, i);
    assert forall|k: int| 0 <= k < pre.len() implies (#[trigger] pre[k]).tokens() is Ok by {
        assert(pre[k] == s.args@[k]);
    }
    lemma_args_tokens_ok(pre);
    assert(s.args@.subrange(0, i + 1).drop_last() =~= pre);
    assert(args_tokens(s.args@.subrange(0, i + 1)) == Err::<Seq<Seq<char>>, ArgsError>(
        ArgsError::MissingRequired(s.args@[i].id),
    ));
    lemma_args_tokens_err_extends(s.args@, i + 1);
}

/// Two fresh states of one argument assemble to the same tokens.
proof fn lemma_fresh_args_agree(x: ArgState, y: ArgState, a: ArgSpec)
    requires
        x.is_fresh(a),
        y.is_fresh(a),
    ensures
        x.tokens() == y.tokens(),
{
    match (x.kind, y.kind) {
        (ArgKind::MultipleStrings { values: vx, .. }, ArgKind::MultipleStrings { values: vy, .. }) => {
            assert(entry_texts(vx@) =~= entry_texts(vy@));
        },
        _ => {},
    }
}

/// Selecting a branch starts it afresh, so nothing edited in an earlier
/// selection of it survives: any two fresh states of one command assemble
/// to the same tokens (or fail alike), whatever was done before.
pub proof fn lemma_fresh_states_agree(a: AppState, b: AppState, schema: Schema, c: int)
    requires
        a.is_fresh(schema, c),
        b.is_fresh(schema, c),
    ensures
        a.tokens() == b.tokens(),
{
    let spec = schema.commands@[c];
    assert forall|i: int| 0 <= i < a.args@.len() implies (#[trigger] a.args@[i]).tokens()
        == b.args@[i].tokens() by {
        lemma_fresh_args_agree(a.args@[i], b.args@[i], spec.args@[i]);
    }
    lemma_args_tokens_agree(a.args@, b.args@);
}

} // verus!
