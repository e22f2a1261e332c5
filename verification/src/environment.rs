//! The environment that a test artifact declares for its run.

use crate::codec::{decode_bytes, decoded, MetadataError};
use crate::section::{extract, section_of, ExtractError};
use vstd::prelude::*;

verus! {

/// A test execution environment description.
#[derive(Clone, Debug)]
pub struct Environment {
    /// The exit value that the test should produce.
    pub exit: i32,
    /// Environment variables to be set: each key at most once.
    pub vars: Vec<(String, String)>,
    /// Arguments to be passed to the test, in order.
    pub args: Vec<String>,
    /// The preopened directories the test expects: each path at most once.
    pub dirs: Vec<String>,
    /// The stdin data to be passed to the test.
    pub stdin: String,
    /// The stdout data that the test should produce.
    pub stdout: String,
    /// The stderr data that the test should produce.
    pub stderr: String,
}

/// An `Environment` as a mathematical value: the variables as a map, the
/// directories as a set.
pub struct EnvironmentView {
    pub exit: i32,
    pub vars: Map<Seq<char>, Seq<char>>,
    pub args: Seq<Seq<char>>,
    pub dirs: Set<Seq<char>>,
    pub stdin: Seq<char>,
    pub stdout: Seq<char>,
    pub stderr: Seq<char>,
}

/// The strings of a list, each by its view.
pub open spec fn texts_of(list: Seq<String>) -> Seq<Seq<char>> {
    Seq::new(list.len(), |i: int| list[i]@)
}

/// No key occurs twice among the pairs.
pub open spec fn distinct_keys(pairs: Seq<(String, String)>) -> bool {
    forall|i: int, j: int| 0 <= i < j < pairs.len() ==> pairs[i].0@ != pairs[j].0@
}

/// The pairs as a map from key to value.
pub open spec fn pairs_map(pairs: Seq<(String, String)>) -> Map<Seq<char>, Seq<char>> {
    Map::new(
        |k: Seq<char>| exists|i: int| 0 <= i < pairs.len() && pairs[i].0@ == k,
        |k: Seq<char>| pairs[choose|i: int| 0 <= i < pairs.len() && pairs[i].0@ == k].1@,
    )
}

impl View for Environment {
    type V = EnvironmentView;

    open spec fn view(&self) -> EnvironmentView {
        EnvironmentView {
            exit: self.exit,
            vars: pairs_map(self.vars@),
            args: texts_of(self.args@),
            dirs: texts_of(self.dirs@).to_set(),
            stdin: self.stdin@,
            stdout: self.stdout@,
            stderr: self.stderr@,
        }
    }
}

/// The environment of an artifact that declares nothing: exit status 0 and
/// everything else empty.
pub open spec fn default_view() -> EnvironmentView {
    EnvironmentView {
        exit: 0i32,
        vars: Map::empty(),
        args: Seq::empty(),
        dirs: Set::empty(),
        stdin: Seq::empty(),
        stdout: Seq::empty(),
        stderr: Seq::empty(),
    }
}

impl Environment {
    /// Well-formedness: no variable is set twice, no directory is named twice.
    pub open spec fn wf(&self) -> bool {
        &&& distinct_keys(self.vars@)
        &&& texts_of(self.dirs@).no_duplicates()
    }
}

impl Default for Environment {
    fn default() -> (env: Environment)
        ensures
            env.wf(),
            env@ == default_view(),
    {
        let env = Environment {
            exit: 0,
            vars: Vec::new(),
            args: Vec::new(),
            dirs: Vec::new(),
            stdin: String::new(),
            stdout: String::new(),
            stderr: String::new(),
        };
        proof {
            assert(pairs_map(env.vars@) =~= Map::empty());
            assert(texts_of(env.args@) =~= Seq::empty());
            assert(texts_of(env.dirs@).to_set() =~= Set::empty());
        }
        env
    }
}

/// A variable as a run is given it: the key, `=`, the value.
pub open spec fn setting(key: Seq<char>, value: Seq<char>) -> Seq<char> {
    key + "="@ + value
}

impl Environment {
    /// The variables as the run is to be given them: one `key=value` for each
    /// pair of `vars`, in their order.
    pub fn variables(&self) -> (list: Vec<String>)
        ensures
            list@.len() == self.vars@.len(),
            forall|i: int|
                0 <= i < list@.len() ==> (#[trigger] list@[i])@ == setting(
                    self.vars@[i].0@,
                    self.vars@[i].1@,
                ),
    {
        let mut list: Vec<String> = Vec::new();
        let mut at: usize = 0;
        while at < self.vars.len()
            invariant
                at <= self.vars@.len(),
                list@.len() == at,
                forall|i: int|
                    0 <= i < at ==> (#[trigger] list@[i])@ == setting(
                        self.vars@[i].0@,
                        self.vars@[i].1@,
                    ),
            decreases self.vars@.len() - at,
        {
            let mut line = self.vars[at].0.clone();
            line.append("=");
            line.append(self.vars[at].1.as_str());
            list.push(line);
            at = at + 1;
        }
        list
    }
}

/// The name of the custom section that holds the metadata.
pub open spec fn metadata_section() -> Seq<char> {
    ".test.data"@
}

/// The environment that the artifact `wasm` declares: that of its metadata
/// section, or the default one where it has no such section.
pub open spec fn load_bytes(wasm: Seq<u8>) -> Result<EnvironmentView, MetadataError> {
    match section_of(wasm, metadata_section()) {
        Ok(data) => decode_bytes(data),
        Err(ExtractError::SectionNotFound) => Ok(default_view()),
        Err(ExtractError::InvalidBinaryFormat) => Err(MetadataError::InvalidBinaryFormat),
    }
}

impl Environment {
    /// Reads the environment that a WebAssembly artifact declares in its
    /// `.test.data` section. An artifact without that section declares the
    /// default environment.
    pub fn load(wasm: &[u8]) -> (result: Result<Environment, MetadataError>)
        ensures
            result matches Ok(env) ==> env.wf(),
            decoded(result) == load_bytes(wasm@),
    {
        match extract(wasm, ".test.data") {
            Ok(data) => Environment::decode(data.as_slice()),
            Err(ExtractError::SectionNotFound) => Ok(Environment::default()),
            Err(ExtractError::InvalidBinaryFormat) => Err(MetadataError::InvalidBinaryFormat),
        }
    }
}

/// An artifact that ends without a metadata section declares the default
/// environment.
pub proof fn no_section_is_default(wasm: Seq<u8>)
    requires
        section_of(wasm, metadata_section()) == Err::<Seq<u8>, ExtractError>(
            ExtractError::SectionNotFound,
        ),
    ensures
        load_bytes(wasm) == Ok::<EnvironmentView, MetadataError>(default_view()),
{
}

} // verus!
