use vstd::prelude::*;

verus! {

#[verifier::external_type_specification]
#[verifier::external_body]
pub struct ExOptions(getopts::Options);

#[verifier::external_type_specification]
#[verifier::external_body]
pub struct ExMatches(getopts::Matches);

/// A short option name that getopts accepts: empty or one ASCII character.
pub open spec fn valid_short(s: Seq<char>) -> bool {
    s.len() == 0 || (s.len() == 1 && (s[0] as u32) < 128)
}

/// A long option name that getopts accepts: empty or longer than one character.
pub open spec fn valid_long(s: Seq<char>) -> bool {
    s.len() != 1
}

/// An option with at least one name, each of them accepted by getopts.
pub open spec fn valid_entry(short: Seq<char>, long: Seq<char>) -> bool {
    valid_short(short) && valid_long(long) && (short.len() > 0 || long.len() > 0)
}

/// A table model whose entries (short name, long name, takes a value) are all valid.
pub open spec fn table_ok(table: Seq<(Seq<char>, Seq<char>, bool)>) -> bool {
    forall|i: int| 0 <= i < table.len() ==> valid_entry(#[trigger] table[i].0, table[i].1)
}

/// Whether `name` names an option of the table: a one-character name is
/// looked up among the short names, a longer one among the long names.
pub open spec fn defines(table: Seq<(Seq<char>, Seq<char>, bool)>, name: Seq<char>) -> bool {
    exists|i: int|
        0 <= i < table.len() && ((name.len() == 1 && #[trigger] table[i].0 == name) || (name.len()
            > 1 && table[i].1 == name))
}

/// Whether getopts accepts the arguments against a table with these entries.
pub uninterp spec fn getopts_accepts(
    table: Seq<(Seq<char>, Seq<char>, bool)>,
    args: Seq<Seq<char>>,
) -> bool;

/// Whether getopts finds the option `name` among the arguments.
pub uninterp spec fn getopts_given(
    table: Seq<(Seq<char>, Seq<char>, bool)>,
    args: Seq<Seq<char>>,
    name: Seq<char>,
) -> bool;

/// The value getopts finds for the option `name` among the arguments.
pub uninterp spec fn getopts_value(
    table: Seq<(Seq<char>, Seq<char>, bool)>,
    args: Seq<Seq<char>>,
    name: Seq<char>,
) -> Option<Seq<char>>;

/// The arguments as character sequences.
pub open spec fn args_view(args: Seq<String>) -> Seq<Seq<char>> {
    args.map_values(|s: String| s@)
}

/// A getopts option table, with a model of its entries.
pub struct OptionTable {
    inner: getopts::Options,
    model: Ghost<Seq<(Seq<char>, Seq<char>, bool)>>,
}

/// The outcome of matching arguments against an `OptionTable`, with the
/// table's model and the arguments.
pub struct MatchedArgs {
    inner: getopts::Matches,
    model: Ghost<Seq<(Seq<char>, Seq<char>, bool)>>,
    args: Ghost<Seq<Seq<char>>>,
}

/// Relies on getopts::Options::new: an empty table.
#[verifier::external_body]
fn getopts_new() -> (r: getopts::Options) {
    getopts::Options::new()
}

/// Relies on getopts::Options::optopt, which panics unless the names are as
/// `valid_short` and `valid_long` say.
#[verifier::external_body]
fn getopts_optopt(t: &mut getopts::Options, short: &str, long: &str, desc: &str, hint: &str)
    requires
        valid_entry(short@, long@),
{
    t.optopt(short, long, desc, hint);
}

/// Relies on getopts::Options::optflag, which panics unless the names are as
/// `valid_short` and `valid_long` say.
#[verifier::external_body]
fn getopts_optflag(t: &mut getopts::Options, short: &str, long: &str, desc: &str)
    requires
        valid_entry(short@, long@),
{
    t.optflag(short, long, desc);
}

/// Relies on getopts::Options::parse, which panics on an option without a
/// name; its error is rendered by `Display`.
#[verifier::external_body]
fn getopts_parse(t: &OptionTable, args: &Vec<String>) -> (r: Result<getopts::Matches, String>)
    requires
        table_ok(t.spec()),
    ensures
        r is Ok <==> getopts_accepts(t.spec(), args_view(args@)),
{
    t.inner.parse(args).map_err(|e| e.to_string())
}

/// Relies on getopts::Matches::opt_present, which panics on a name that the
/// table does not define.
#[verifier::external_body]
fn getopts_opt_present(m: &MatchedArgs, name: &str) -> (r: bool)
    requires
        defines(m.spec(), name@),
    ensures
        r == getopts_given(m.spec(), m.args(), name@),
{
    m.inner.opt_present(name)
}

/// Relies on getopts::Matches::opt_str, which panics on a name that the table
/// does not define.
#[verifier::external_body]
fn getopts_opt_str(m: &MatchedArgs, name: &str) -> (r: Option<String>)
    requires
        defines(m.spec(), name@),
    ensures
        r matches Some(s) ==> getopts_value(m.spec(), m.args(), name@) == Some(s@),
        r is None ==> getopts_value(m.spec(), m.args(), name@) is None,
{
    m.inner.opt_str(name)
}

impl OptionTable {
    /// The entries: short name, long name, and whether the option takes a value.
    pub closed spec fn spec(&self) -> Seq<(Seq<char>, Seq<char>, bool)> {
        self.model@
    }

    /// A table that defines no option.
    pub fn new() -> (r: OptionTable)
        ensures
            r.spec() == Seq::<(Seq<char>, Seq<char>, bool)>::empty(),
    {
        OptionTable { inner: getopts_new(), model: Ghost(Seq::empty()) }
    }

    /// Defines an option that takes a value.
    pub fn option(&mut self, short: &str, long: &str, desc: &str, hint: &str)
        requires
            valid_entry(short@, long@),
        ensures
            final(self).spec() == old(self).spec().push((short@, long@, true)),
    {
        getopts_optopt(&mut self.inner, short, long, desc, hint);
        self.model = Ghost(self.model@.push((short@, long@, true)));
    }

    /// Defines an option that takes no value.
    pub fn flag(&mut self, short: &str, long: &str, desc: &str)
        requires
            valid_entry(short@, long@),
        ensures
            final(self).spec() == old(self).spec().push((short@, long@, false)),
    {
        getopts_optflag(&mut self.inner, short, long, desc);
        self.model = Ghost(self.model@.push((short@, long@, false)));
    }

    /// Matches `args` (the program name left out) against the table; an
    /// unknown option or a missing value gives the parser's message.
    pub fn matches(&self, args: &Vec<String>) -> (r: Result<MatchedArgs, String>)
        requires
            table_ok(self.spec()),
        ensures
            r is Ok <==> getopts_accepts(self.spec(), args_view(args@)),
            r matches Ok(m) ==> m.spec() == self.spec() && m.args() == args_view(args@),
    {
        match getopts_parse(self, args) {
            Ok(m) => Ok(
                MatchedArgs {
                    inner: m,
                    model: Ghost(self.model@),
                    args: Ghost(args_view(args@)),
                },
            ),
            Err(e) => Err(e),
        }
    }

    /// The getopts table itself, for rendering usage text.
    pub fn getopts(&self) -> &getopts::Options {
        &self.inner
    }
}

impl MatchedArgs {
    /// The entries of the table the arguments were matched against.
    pub closed spec fn spec(&self) -> Seq<(Seq<char>, Seq<char>, bool)> {
        self.model@
    }

    /// The arguments that were matched.
    pub closed spec fn args(&self) -> Seq<Seq<char>> {
        self.args@
    }

    /// Whether the option `name` was given.
    pub fn present(&self, name: &str) -> (r: bool)
        requires
            defines(self.spec(), name@),
        ensures
            r == getopts_given(self.spec(), self.args(), name@),
    {
        getopts_opt_present(self, name)
    }

    /// The value given to the option `name`, if it was given.
    pub fn value(&self, name: &str) -> (r: Option<String>)
        requires
            defines(self.spec(), name@),
        ensures
            r matches Some(s) ==> getopts_value(self.spec(), self.args(), name@) == Some(s@),
            r is None ==> getopts_value(self.spec(), self.args(), name@) is None,
    {
        getopts_opt_str(self, name)
    }
}

} // verus!
