//! The query model: a fully resolved document query, the builder that merges
//! user configuration with a job kind's defaults, and the classification of a
//! query run's outcome.
//!
//! Running the external query tool is a subprocess and lives outside this
//! crate; the command line it is given is constructed and specified here.

use vstd::prelude::*;
use vstd::string::StringExecFns;

use crate::config;

verus! {

/// A fully resolved query against the source document. A value of this type
/// only ever exists with every required entry resolved: building one from
/// user configuration fails instead of leaving an entry open.
#[derive(Debug, Clone, PartialEq, Eq)]
pub struct Query {
    /// The selector to be queried, e.g. `<label>`.
    pub selector: String,
    /// The field to be queried from the selector, or `None` if field
    /// selection is disabled.
    pub field: Option<String>,
    /// Whether exactly one query result is expected and returned.
    pub one: bool,
    /// Additional inputs given to the queried document, in manifest order.
    /// Independently of these, `prequery-fallback` is always set to `true`
    /// on the constructed command line; the key is reserved and not
    /// user-overridable.
    pub inputs: Vec<(String, String)>,
}

/// A query builder holding a job kind's defaults. An entry missing from the
/// user configuration falls back to the corresponding default; if neither is
/// present, building fails.
#[derive(Debug, Clone, PartialEq, Eq)]
pub struct QueryBuilder {
    /// Default selector.
    pub selector: Option<String>,
    /// Default field: `Some(None)` disables field selection by default,
    /// `Some(Some(name))` selects a field by default.
    pub field: Option<Option<String>>,
    /// Default for whether one result is expected.
    pub one: Option<bool>,
}

/// Error of the query builder: a required entry was resolved by neither the
/// user configuration nor the kind's defaults.
#[derive(Debug, Clone, PartialEq, Eq)]
pub enum QueryBuilderError {
    /// `selector` was not specified but is required.
    Selector,
    /// `field` was not specified but is required.
    Field,
    /// `one` was not specified but is required.
    One,
}

/// Error while executing a query.
#[derive(Debug, Clone, PartialEq, Eq)]
pub enum Error {
    /// Launching the query tool or reading from it failed.
    Io,
    /// The query tool exited with a non-zero status; the code is `None` when
    /// the process was terminated without one.
    Failure {
        /// The status code with which the tool failed.
        code: Option<i32>,
    },
    /// The tool's output was not valid structured data of the expected
    /// shape.
    Json,
}

/// The selector a query configuration resolves to under the given default,
/// or `None` when neither side provides one. The user's value always wins.
pub open spec fn resolved_selector(config: Option<String>, default: Option<String>) -> Option<
    String,
> {
    if config is Some {
        config
    } else {
        default
    }
}

/// The field a query configuration resolves to under the given default:
/// an explicit name or explicit disabling wins over the default, and only an
/// absent entry falls back. The outer `None` means "unresolved".
pub open spec fn resolved_field(
    config: config::FieldConfig,
    default: Option<Option<String>>,
) -> Option<Option<String>> {
    match config {
        config::FieldConfig::Named(s) => Some(Some(s)),
        config::FieldConfig::Disabled => Some(None),
        config::FieldConfig::Absent => default,
    }
}

/// The `one` flag a query configuration resolves to under the given default,
/// or `None` when neither side provides one.
pub open spec fn resolved_one(config: Option<bool>, default: Option<bool>) -> Option<bool> {
    if config is Some {
        config
    } else {
        default
    }
}

/// The views of a list of argument strings.
pub open spec fn string_views(s: Seq<String>) -> Seq<Seq<char>> {
    s.map_values(|x: String| x@)
}

/// The views of the key/value inputs of a query.
pub open spec fn pair_views(s: Seq<(String, String)>) -> Seq<(Seq<char>, Seq<char>)> {
    s.map_values(|p: (String, String)| (p.0@, p.1@))
}

/// An optional argument string as an abstract value.
pub open spec fn str_option_view(o: Option<String>) -> Option<Seq<char>> {
    match o {
        Some(s) => Some(s@),
        None => None,
    }
}

/// The `key=value` form in which one input is handed to the query tool.
pub open spec fn input_arg(key: Seq<char>, value: Seq<char>) -> Seq<char> {
    key + "="@ + value
}

/// The command-line contribution of one user input: dropped when its key is
/// the reserved `prequery-fallback`, otherwise `--input key=value`.
pub open spec fn entry_args(key: Seq<char>, value: Seq<char>) -> Seq<Seq<char>> {
    if key == "prequery-fallback"@ {
        Seq::empty()
    } else {
        seq!["--input"@, input_arg(key, value)]
    }
}

/// The command-line contribution of the user inputs, in order.
pub open spec fn input_args(inputs: Seq<(Seq<char>, Seq<char>)>) -> Seq<Seq<char>>
    decreases inputs.len(),
{
    if inputs.len() == 0 {
        Seq::empty()
    } else {
        input_args(inputs.drop_last()) + entry_args(inputs.last().0, inputs.last().1)
    }
}

/// The `--root` part of the command line, present when a root is given.
pub open spec fn root_args(root: Option<Seq<char>>) -> Seq<Seq<char>> {
    match root {
        Some(r) => seq!["--root"@, r],
        None => Seq::empty(),
    }
}

/// The `--field` part of the command line, present when a field is
/// selected.
pub open spec fn field_args(field: Option<Seq<char>>) -> Seq<Seq<char>> {
    match field {
        Some(f) => seq!["--field"@, f],
        None => Seq::empty(),
    }
}

/// The `--one` part of the command line, present when one result is
/// expected.
pub open spec fn one_args(one: bool) -> Seq<Seq<char>> {
    if one {
        seq!["--one"@]
    } else {
        Seq::empty()
    }
}

/// The full argument list of a query tool invocation:
/// `query [--root <root>] [--field <field>] [--one] (--input key=value)*
/// --input prequery-fallback=true <input-file> <selector>`. User inputs
/// appear in order; an input under the reserved key `prequery-fallback` is
/// dropped, and the reserved input is always appended set to `true`.
pub open spec fn command_args_spec(
    selector: Seq<char>,
    field: Option<Seq<char>>,
    one: bool,
    inputs: Seq<(Seq<char>, Seq<char>)>,
    root: Option<Seq<char>>,
    input_file: Seq<char>,
) -> Seq<Seq<char>> {
    seq!["query"@] + root_args(root) + field_args(field) + one_args(one) + input_args(inputs)
        + seq!["--input"@, "prequery-fallback=true"@] + seq![input_file, selector]
}

/// How many times an argument list carries `--input` immediately followed
/// by `prequery-fallback=true`.
pub open spec fn count_forced(args: Seq<Seq<char>>) -> int
    decreases args.len(),
{
    if args.len() < 2 {
        0
    } else {
        (if args[0] == "--input"@ && args[1] == "prequery-fallback=true"@ {
            1int
        } else {
            0int
        }) + count_forced(args.drop_first())
    }
}

broadcast proof fn lemma_string_views_push(s: Seq<String>, x: String)
    ensures
        #[trigger] string_views(s.push(x)) =~= string_views(s).push(x@),
{
    assert forall|i: int| 0 <= i < s.push(x).len() implies string_views(s.push(x))[i]
        == string_views(s).push(x@)[i] by {
        if i < s.len() {
            assert(s.push(x)[i] == s[i]);
        } else {
            assert(s.push(x)[i] == x);
        }
    }
}

impl Query {
    /// Creates a query builder with no defaults set.
    pub fn builder() -> (r: QueryBuilder)
        ensures
            r == (QueryBuilder { selector: None, field: None, one: None }),
    {
        QueryBuilder { selector: None, field: None, one: None }
    }

    /// Constructs the argument list of the query tool invocation for this
    /// query, given the optional project root and the input file to query.
    /// User inputs are passed in their stored order; an input under the
    /// reserved key `prequery-fallback` is dropped, and the reserved input
    /// is always appended set to `true`.
    pub fn command_args(&self, root: &Option<String>, input_file: &String) -> (r: Vec<String>)
        ensures
            string_views(r@) == command_args_spec(
                self.selector@,
                str_option_view(self.field),
                self.one,
                pair_views(self.inputs@),
                str_option_view(*root),
                input_file@,
            ),
    {
        broadcast use lemma_string_views_push;

        let ghost rootv = str_option_view(*root);
        let ghost fieldv = str_option_view(self.field);
        let mut args: Vec<String> = Vec::new();
        args.push("query".to_owned());
        proof {
            assert(string_views(args@) =~= seq!["query"@]);
        }
        match root {
            Some(r) => {
                args.push("--root".to_owned());
                args.push(r.clone());
                proof {
                    assert(string_views(args@) =~= seq!["query"@] + root_args(rootv));
                }
            },
            None => {
                proof {
                    assert(string_views(args@) =~= seq!["query"@] + root_args(rootv));
                }
            },
        }
        match &self.field {
            Some(f) => {
                args.push("--field".to_owned());
                args.push(f.clone());
            },
            None => {},
        }
        proof {
            assert(string_views(args@) =~= seq!["query"@] + root_args(rootv) + field_args(fieldv));
        }
        if self.one {
            args.push("--one".to_owned());
        }
        let ghost lead = seq!["query"@] + root_args(rootv) + field_args(fieldv) + one_args(
            self.one,
        );
        proof {
            assert(string_views(args@) =~= lead);
        }
        let ghost all_inputs = pair_views(self.inputs@);
        let reserved = "prequery-fallback".to_owned();
        let mut i: usize = 0;
        while i < self.inputs.len()
            invariant
                0 <= i <= self.inputs.len(),
                all_inputs == pair_views(self.inputs@),
                all_inputs.len() == self.inputs@.len(),
                reserved@ == "prequery-fallback"@,
                string_views(args@) == lead + input_args(all_inputs.take(i as int)),
            decreases self.inputs.len() - i,
        {
            proof {
                assert(all_inputs.take(i + 1).drop_last() =~= all_inputs.take(i as int));
                assert(all_inputs.take(i + 1).last() == all_inputs[i as int]);
                assert(all_inputs[i as int] == (self.inputs@[i as int].0@, self.inputs@[
                    i as int].1@));
            }
            let entry = &self.inputs[i];
            if entry.0 == reserved {
                proof {
                    assert(entry_args(entry.0@, entry.1@) =~= Seq::<Seq<char>>::empty());
                    assert(input_args(all_inputs.take(i + 1)) =~= input_args(
                        all_inputs.take(i as int),
                    ));
                }
            } else {
                args.push("--input".to_owned());
                let mut pair = entry.0.clone();
                pair.append("=");
                pair.append(entry.1.as_str());
                proof {
                    assert(pair@ == input_arg(entry.0@, entry.1@));
                }
                args.push(pair);
                proof {
                    assert(entry_args(entry.0@, entry.1@) =~= seq![
                        "--input"@,
                        input_arg(entry.0@, entry.1@),
                    ]);
                    assert(string_views(args@) =~= lead + input_args(all_inputs.take(i as int))
                        + entry_args(entry.0@, entry.1@));
                }
            }
            proof {
                assert(input_args(all_inputs.take(i + 1)) == input_args(all_inputs.take(i as int))
                    + entry_args(entry.0@, entry.1@) || input_args(all_inputs.take(i + 1))
                    =~= input_args(all_inputs.take(i as int)));
                assert(string_views(args@) =~= lead + input_args(all_inputs.take(i + 1)));
            }
            i += 1;
        }
        proof {
            assert(all_inputs.take(i as int) =~= all_inputs);
        }
        args.push("--input".to_owned());
        args.push("prequery-fallback=true".to_owned());
        args.push(input_file.clone());
        args.push(self.selector.clone());
        proof {
            assert(string_views(args@) =~= command_args_spec(
                self.selector@,
                fieldv,
                self.one,
                all_inputs,
                rootv,
                input_file@,
            ));
        }
        args
    }

    /// Classifies the outcome of one run of the query tool. The tool's exit
    /// status and the attempt to decode its standard output are handed in as
    /// plain values: a non-zero exit fails the query with the tool's status
    /// code, undecodable output fails it as malformed, and otherwise the
    /// decoded rows are returned unchanged, with no further validation.
    pub fn interpret_output<T>(exit_success: bool, code: Option<i32>, decoded: Option<T>) -> (r:
        Result<T, Error>)
        ensures
            !exit_success ==> r == Err::<T, Error>(Error::Failure { code }),
            exit_success && decoded is None ==> r == Err::<T, Error>(Error::Json),
            exit_success && decoded is Some ==> r == Ok::<T, Error>(decoded.unwrap()),
    {
        if !exit_success {
            Err(Error::Failure { code })
        } else {
            match decoded {
                None => Err(Error::Json),
                Some(value) => Ok(value),
            }
        }
    }
}

proof fn lemma_count_forced_concat(a: Seq<Seq<char>>, b: Seq<Seq<char>>)
    ensures
        count_forced(a + b) == count_forced(a) + count_forced(b) + (if a.len() > 0 && b.len() > 0
            && a.last() == "--input"@ && b[0] == "prequery-fallback=true"@ {
            1int
        } else {
            0int
        }),
    decreases a.len(),
{
    if a.len() == 0 {
        assert(a + b =~= b);
    } else if a.len() == 1 {
        if b.len() == 0 {
            assert(a + b =~= a);
        } else {
            assert((a + b).drop_first() =~= b);
            assert((a + b)[0] == a[0]);
            assert((a + b)[1] == b[0]);
            assert(a.last() == a[0]);
        }
    } else {
        assert((a + b).drop_first() =~= a.drop_first() + b);
        lemma_count_forced_concat(a.drop_first(), b);
        assert((a + b)[0] == a[0]);
        assert((a + b)[1] == a[1]);
        assert(a.drop_first()[0] == a[1]);
        if b.len() > 0 {
            assert(a.drop_first().last() == a.last());
        }
    }
}

proof fn lemma_input_arg_ne_forced(key: Seq<char>, value: Seq<char>)
    requires
        key != "prequery-fallback"@,
    ensures
        input_arg(key, value) != "prequery-fallback=true"@,
{
    reveal_strlit("prequery-fallback=true");
    reveal_strlit("prequery-fallback");
    reveal_strlit("=");
    let s = input_arg(key, value);
    let f = "prequery-fallback=true"@;
    if s == f {
        assert(f.len() == 22);
        assert("="@.len() == 1);
        assert(s.len() == key.len() + 1 + value.len());
        let j = key.len() as int;
        assert(0 <= j <= 21);
        assert(s[j] == '=') by {
            assert((key + "="@)[j] == "="@[0]);
        }
        if j == 17 {
            assert(key =~= "prequery-fallback"@) by {
                assert("prequery-fallback"@.len() == 17);
                assert forall|i: int| 0 <= i < 17 implies key[i] == "prequery-fallback"@[i] by {
                    assert(key[i] == s[i]);
                    assert(f[i] == "prequery-fallback"@[i]);
                }
            }
            assert(false);
        } else {
            assert(f[j] == '=');
            if j == 0 {
                assert(f[0] == 'p');
            } else if j == 1 {
                assert(f[1] == 'r');
            } else if j == 2 {
                assert(f[2] == 'e');
            } else if j == 3 {
                assert(f[3] == 'q');
            } else if j == 4 {
                assert(f[4] == 'u');
            } else if j == 5 {
                assert(f[5] == 'e');
            } else if j == 6 {
                assert(f[6] == 'r');
            } else if j == 7 {
                assert(f[7] == 'y');
            } else if j == 8 {
                assert(f[8] == '-');
            } else if j == 9 {
                assert(f[9] == 'f');
            } else if j == 10 {
                assert(f[10] == 'a');
            } else if j == 11 {
                assert(f[11] == 'l');
            } else if j == 12 {
                assert(f[12] == 'l');
            } else if j == 13 {
                assert(f[13] == 'b');
            } else if j == 14 {
                assert(f[14] == 'a');
            } else if j == 15 {
                assert(f[15] == 'c');
            } else if j == 16 {
                assert(f[16] == 'k');
            } else if j == 18 {
                assert(f[18] == 't');
            } else if j == 19 {
                assert(f[19] == 'r');
            } else if j == 20 {
                assert(f[20] == 'u');
            } else {
                assert(f[21] == 'e');
            }
            assert(false);
        }
    }
}

proof fn lemma_input_args_count(inputs: Seq<(Seq<char>, Seq<char>)>)
    ensures
        count_forced(input_args(inputs)) == 0,
        input_args(inputs).len() > 0 ==> input_args(inputs)[0] == "--input"@,
    decreases inputs.len(),
{
    reveal_strlit("--input");
    reveal_strlit("prequery-fallback=true");
    if inputs.len() > 0 {
        let key = inputs.last().0;
        let value = inputs.last().1;
        let prefix = input_args(inputs.drop_last());
        let e = entry_args(key, value);
        lemma_input_args_count(inputs.drop_last());
        lemma_count_forced_concat(prefix, e);
        assert("--input"@.len() == 7);
        assert("prequery-fallback=true"@.len() == 22);
        if key == "prequery-fallback"@ {
            assert(input_args(inputs) =~= prefix);
        } else {
            lemma_input_arg_ne_forced(key, value);
            assert(e[0] == "--input"@);
            assert(e[1] == input_arg(key, value));
            assert(count_forced(e.drop_first()) == 0);
            assert(count_forced(e) == 0);
            if prefix.len() > 0 {
                assert(input_args(inputs)[0] == prefix[0]);
            } else {
                assert(input_args(inputs) =~= e);
            }
        }
    }
}

/// The forced fallback input appears exactly once: however the user
/// configures the query — even with an input under the reserved key itself —
/// the constructed command line carries `--input` immediately followed by
/// `prequery-fallback=true` exactly once. The one degenerate combination is
/// left out: a queried file itself named `--input` next to a selector that
/// is literally the forced pair's text would echo the pair a second time.
pub proof fn lemma_forced_input_once(
    selector: Seq<char>,
    field: Option<Seq<char>>,
    one: bool,
    inputs: Seq<(Seq<char>, Seq<char>)>,
    root: Option<Seq<char>>,
    input_file: Seq<char>,
)
    requires
        !(input_file == "--input"@ && selector == "prequery-fallback=true"@),
    ensures
        count_forced(command_args_spec(selector, field, one, inputs, root, input_file)) == 1,
{
    reveal_strlit("query");
    reveal_strlit("--root");
    reveal_strlit("--field");
    reveal_strlit("--one");
    reveal_strlit("--input");
    reveal_strlit("prequery-fallback=true");
    let f = "prequery-fallback=true"@;
    assert("query"@.len() == 5);
    assert("--root"@.len() == 6);
    assert("--field"@.len() == 7);
    assert("--one"@.len() == 5);
    assert("--input"@.len() == 7);
    assert(f.len() == 22);
    assert("--field"@[2] == 'f');
    assert("--input"@[2] == 'i');
    let s0 = seq!["query"@];
    let s1 = root_args(root);
    let s2 = field_args(field);
    let s3 = one_args(one);
    let s4 = input_args(inputs);
    let s5 = seq!["--input"@, f];
    let s6 = seq![input_file, selector];
    assert(count_forced(s0) == 0);
    assert(count_forced(s1) == 0) by {
        if root is Some {
            assert(count_forced(s1.drop_first()) == 0);
        }
    }
    assert(count_forced(s2) == 0) by {
        if field is Some {
            assert(count_forced(s2.drop_first()) == 0);
        }
    }
    assert(count_forced(s3) == 0);
    lemma_input_args_count(inputs);
    assert(count_forced(s5) == 1) by {
        assert(count_forced(s5.drop_first()) == 0);
    }
    assert(count_forced(s6) == 0) by {
        assert(count_forced(s6.drop_first()) == 0);
    }
    let t1 = s0 + s1;
    lemma_count_forced_concat(s0, s1);
    assert(count_forced(t1) == 0);
    let t2 = t1 + s2;
    lemma_count_forced_concat(t1, s2);
    assert(count_forced(t2) == 0);
    let t3 = t2 + s3;
    lemma_count_forced_concat(t2, s3);
    assert(count_forced(t3) == 0);
    let t4 = t3 + s4;
    lemma_count_forced_concat(t3, s4);
    assert(count_forced(t4) == 0);
    let t5 = t4 + s5;
    lemma_count_forced_concat(t4, s5);
    assert(count_forced(t5) == 1);
    lemma_count_forced_concat(t5, s6);
    assert(t5.last() == f) by {
        assert(t5[t5.len() - 1] == s5[1]);
    }
    assert(count_forced(t5 + s6) == 1);
    assert(command_args_spec(selector, field, one, inputs, root, input_file) == t5 + s6);
}

impl QueryBuilder {
    /// Sets the default selector.
    pub fn default_selector(self, selector: String) -> (r: Self)
        ensures
            r.selector == Some(selector),
            r.field == self.field,
            r.one == self.one,
    {
        QueryBuilder { selector: Some(selector), ..self }
    }

    /// Sets the default field; `None` disables field selection by default.
    pub fn default_field(self, field: Option<String>) -> (r: Self)
        ensures
            r.selector == self.selector,
            r.field == Some(field),
            r.one == self.one,
    {
        QueryBuilder { field: Some(field), ..self }
    }

    /// Sets the default for whether one result is expected.
    pub fn default_one(self, one: bool) -> (r: Self)
        ensures
            r.selector == self.selector,
            r.field == self.field,
            r.one == Some(one),
    {
        QueryBuilder { one: Some(one), ..self }
    }

    /// Merges the user configuration over these defaults into a fully
    /// resolved query: an explicit user value always wins over a default,
    /// and each required entry that neither side resolves fails with the
    /// error naming that entry, `selector` checked first, then `field`, then
    /// `one`. The configured inputs are taken over unchanged.
    pub fn build(self, config: config::Query) -> (r: Result<Query, QueryBuilderError>)
        ensures
            ({
                let sel = resolved_selector(config.selector, self.selector);
                let field = resolved_field(config.field, self.field);
                let one = resolved_one(config.one, self.one);
                match r {
                    Ok(q) => sel is Some && field is Some && one is Some && q == (Query {
                        selector: sel.unwrap(),
                        field: field.unwrap(),
                        one: one.unwrap(),
                        inputs: config.inputs,
                    }),
                    Err(QueryBuilderError::Selector) => sel is None,
                    Err(QueryBuilderError::Field) => sel is Some && field is None,
                    Err(QueryBuilderError::One) => sel is Some && field is Some && one is None,
                }
            }),
    {
        let selector = match config.selector {
            Some(s) => s,
            None => match self.selector {
                Some(s) => s,
                None => {
                    return Err(QueryBuilderError::Selector);
                },
            },
        };
        let field = match config.field {
            config::FieldConfig::Named(s) => Some(s),
            config::FieldConfig::Disabled => None,
            config::FieldConfig::Absent => match self.field {
                Some(f) => f,
                None => {
                    return Err(QueryBuilderError::Field);
                },
            },
        };
        let one = match config.one {
            Some(b) => b,
            None => match self.one {
                Some(b) => b,
                None => {
                    return Err(QueryBuilderError::One);
                },
            },
        };
        Ok(Query { selector, field, one, inputs: config.inputs })
    }
}

} // verus!
