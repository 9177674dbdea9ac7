//! Script materialization and composition: the fixed script templates, the
//! loader-variant selection, and the composer that joins discrete statements
//! into one executable unit.

use vstd::prelude::*;
use vstd::string::StringExecFns;
use crate::loader::Loader;

verus! {

/// A script written to disk once and read by the interpreter by path.
#[derive(Debug, Clone)]
pub struct ScriptFile {
    /// Where the script is written.
    pub path: String,
    /// The full text of the script.
    pub body: String,
}

/// One entry of a script batch: a materialized script referenced by its
/// relative path, or an ad-hoc expression passed inline.
#[derive(Debug, Clone)]
pub enum ScriptInvocation {
    /// A materialized script, by relative path.
    File(String),
    /// An inline expression.
    Expression(String),
}

/// The image a script batch runs against.
#[derive(Copy, Clone, Debug, PartialEq, Eq, Structural)]
pub enum InterpreterTarget {
    /// The clean seed image, before any application code is loaded.
    Seed,
    /// The in-progress application image.
    Application,
}

/// An ordered sequence of script invocations executed against one image as
/// one atomic unit, with a flag controlling whether the interpreter persists
/// its image state afterward. Later entries may depend on definitions loaded
/// by earlier ones, so the order is part of the contract.
#[derive(Debug, Clone)]
pub struct ScriptBatch {
    /// The invocations, in execution order.
    pub scripts: Vec<ScriptInvocation>,
    /// The image the batch runs against.
    pub target: InterpreterTarget,
    /// Whether the image state is saved at the end of the batch.
    pub persist: bool,
}

/// The body of the patch-loading script, identical for every loader.
pub open spec fn patches_script_spec() -> Seq<char> {
    "EpMonitor disableDuring: [ GtImageSetup performSetup ]"@
}

/// The body of the patch-loading script.
pub fn patches_script_body() -> (r: &'static str)
    ensures
        r@ == patches_script_spec(),
{
    "EpMonitor disableDuring: [ GtImageSetup performSetup ]"
}

/// The body of the script that loads the task runner, identical for every
/// loader.
pub open spec fn taskit_script_spec() -> Seq<char> {
    "Metacello new baseline: 'TaskIt'; repository: 'github://pharo-contributions/taskit'; load"@
}

/// The body of the script that loads the task runner.
pub fn taskit_script_body() -> (r: &'static str)
    ensures
        r@ == taskit_script_spec(),
{
    "Metacello new baseline: 'TaskIt'; repository: 'github://pharo-contributions/taskit'; load"
}

/// The body of the final load script under the cloner strategy.
pub open spec fn cloner_script_spec() -> Seq<char> {
    "GtImageSetup cloneGlamorousToolkitReleases"@
}

/// The body of the final load script under the Metacello strategy.
pub open spec fn metacello_script_spec() -> Seq<char> {
    "Metacello new baseline: 'GlamorousToolkit'; repository: 'github://feenkcom/gtoolkit:main/src'; load"@
}

/// The body of the final load script that a loader strategy selects. The
/// selection is a pure switch: no other materialized script depends on the
/// loader.
pub open spec fn loader_script_spec(l: Loader) -> Seq<char> {
    match l {
        Loader::Cloner => cloner_script_spec(),
        Loader::Metacello => metacello_script_spec(),
    }
}

/// The body of the final load script that a loader strategy selects.
pub fn loader_script_body(l: Loader) -> (r: &'static str)
    ensures
        r@ == loader_script_spec(l),
{
    match l {
        Loader::Cloner => "GtImageSetup cloneGlamorousToolkitReleases",
        Loader::Metacello => "Metacello new baseline: 'GlamorousToolkit'; repository: 'github://feenkcom/gtoolkit:main/src'; load",
    }
}

/// The two loader strategies select different final load scripts.
pub proof fn lemma_loader_scripts_differ()
    ensures
        loader_script_spec(Loader::Cloner) != loader_script_spec(Loader::Metacello),
{
    reveal_strlit("GtImageSetup cloneGlamorousToolkitReleases");
    reveal_strlit(
        "Metacello new baseline: 'GlamorousToolkit'; repository: 'github://feenkcom/gtoolkit:main/src'; load",
    );
    assert(cloner_script_spec().len() != metacello_script_spec().len());
}

/// The statements joined with the statement separator: empty for no
/// statements, and otherwise each consecutive pair separated by one
/// separator.
pub open spec fn join_statements_spec(parts: Seq<Seq<char>>, sep: Seq<char>) -> Seq<char>
    decreases parts.len(),
{
    if parts.len() == 0 {
        Seq::empty()
    } else if parts.len() == 1 {
        parts[0]
    } else {
        parts[0] + sep + join_statements_spec(parts.drop_first(), sep)
    }
}

/// Appending one more statement appends one separator and the statement.
pub proof fn lemma_join_push(parts: Seq<Seq<char>>, sep: Seq<char>, p: Seq<char>)
    ensures
        parts.len() == 0 ==> join_statements_spec(parts.push(p), sep) == p,
        parts.len() > 0 ==> join_statements_spec(parts.push(p), sep) == join_statements_spec(
            parts,
            sep,
        ) + sep + p,
    decreases parts.len(),
{
    if parts.len() == 0 {
        assert(parts.push(p)[0] == p);
    } else if parts.len() == 1 {
        let q = parts.push(p);
        assert(q[0] == parts[0]);
        assert(q.drop_first() =~= seq![p]);
        assert(join_statements_spec(seq![p], sep) == p);
        assert(join_statements_spec(q, sep) == parts[0] + sep + p);
        assert(join_statements_spec(parts, sep) == parts[0]);
    } else {
        let q = parts.push(p);
        assert(q[0] == parts[0]);
        assert(q.drop_first() =~= parts.drop_first().push(p));
        lemma_join_push(parts.drop_first(), sep, p);
        assert(join_statements_spec(q, sep) == parts[0] + sep + join_statements_spec(
            parts.drop_first().push(p),
            sep,
        ));
        assert(join_statements_spec(parts.drop_first().push(p), sep) == join_statements_spec(
            parts.drop_first(),
            sep,
        ) + sep + p);
        assert(parts[0] + sep + (join_statements_spec(parts.drop_first(), sep) + sep + p) =~= (
        parts[0] + sep + join_statements_spec(parts.drop_first(), sep)) + sep + p);
        assert(join_statements_spec(parts, sep) == parts[0] + sep + join_statements_spec(
            parts.drop_first(),
            sep,
        ));
    }
}

/// Builds one composite script body out of discrete statements, joined with
/// the statement-termination separator of the target scripting language.
#[derive(Debug, Clone)]
pub struct SmalltalkExpressionBuilder {
    /// The statements composed so far, in order.
    pub statements: Vec<String>,
}

impl SmalltalkExpressionBuilder {
    /// The statements composed so far, as character sequences.
    pub open spec fn statements_spec(&self) -> Seq<Seq<char>> {
        self.statements@.map_values(|s: String| s@)
    }

    /// An empty composition.
    pub fn new() -> (r: SmalltalkExpressionBuilder)
        ensures
            r.statements_spec() == Seq::<Seq<char>>::empty(),
    {
        let r = SmalltalkExpressionBuilder { statements: Vec::new() };
        proof {
            assert(r.statements_spec() =~= Seq::<Seq<char>>::empty());
        }
        r
    }

    /// Appends one statement to the composition.
    pub fn add(&mut self, statement: String)
        ensures
            final(self).statements_spec() == old(self).statements_spec().push(statement@),
    {
        let ghost before = self.statements@;
        self.statements.push(statement);
        proof {
            assert(self.statements_spec() =~= old(self).statements_spec().push(
                self.statements@[before.len() as int]@,
            ));
        }
    }

    /// The statements joined into one executable unit with the statement
    /// separator.
    pub fn build(&self) -> (r: String)
        ensures
            r@ == join_statements_spec(self.statements_spec(), "."@),
    {
        let mut out = String::new();
        let n = self.statements.len();
        let mut i: usize = 0;
        while i < n
            invariant
                i <= n,
                n == self.statements@.len(),
                out@ == join_statements_spec(self.statements_spec().take(i as int), "."@),
            decreases n - i,
        {
            if i > 0 {
                out.append(".");
            }
            out.append(self.statements[i].as_str());
            proof {
                let prefix = self.statements_spec().take(i as int);
                lemma_join_push(prefix, "."@, self.statements@[i as int]@);
                assert(self.statements_spec().take(i + 1) =~= prefix.push(
                    self.statements_spec()[i as int],
                ));
                if i == 0 {
                    assert(out@ =~= join_statements_spec(
                        self.statements_spec().take(i + 1),
                        "."@,
                    ));
                }
            }
            i += 1;
        }
        proof {
            assert(self.statements_spec().take(n as int) =~= self.statements_spec());
        }
        out
    }
}

/// The composed expression that configures the interpreter's ssh
/// credentials: one statement enabling custom ssh, one statement naming the
/// two resolved key paths, joined with the statement separator.
pub open spec fn ssh_expression_spec(private: Seq<char>, public: Seq<char>) -> Seq<char> {
    "IceCredentialsProvider useCustomSsh: true"@ + "."@
        + "IceCredentialsProvider sshCredentials publicKey: '"@ + public + "'; privateKey: '"@
        + private + "'"@
}

/// Composes the ssh credential configuration expression from the resolved
/// key paths. The paths are interpolated verbatim into the script text, so
/// callers resolve them to canonical paths first.
pub fn ssh_configuration_expression(private: &String, public: &String) -> (r: String)
    ensures
        r@ == ssh_expression_spec(private@, public@),
{
    let mut builder = SmalltalkExpressionBuilder::new();
    let enable = String::from_str("IceCredentialsProvider useCustomSsh: true");
    let ghost enable_view = enable@;
    builder.add(enable);
    let mut credentials = String::from_str("IceCredentialsProvider sshCredentials publicKey: '");
    credentials.append(public.as_str());
    credentials.append("'; privateKey: '");
    credentials.append(private.as_str());
    credentials.append("'");
    let ghost credentials_view = credentials@;
    builder.add(credentials);
    let r = builder.build();
    proof {
        let parts = builder.statements_spec();
        assert(parts.len() == 2);
        assert(parts[0] == enable_view);
        assert(parts[1] == credentials_view);
        assert(parts.drop_first() =~= seq![credentials_view]);
        assert(join_statements_spec(seq![credentials_view], "."@) == credentials_view);
        assert(r@ == enable_view + "."@ + credentials_view);
        assert(r@ =~= ssh_expression_spec(private@, public@));
    }
    r
}

} // verus!
