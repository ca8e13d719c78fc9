use vstd::prelude::*;

verus! {

/// The program that compiles the watched file.
pub open spec fn compiler_name() -> Seq<char> {
    seq!['g', 'c', 'c']
}

/// The fixed name of the artifact every compile writes, overwriting the
/// previous one.
pub open spec fn artifact_name() -> Seq<char> {
    seq!['o', 'u', 't', 'p', 'u', 't']
}

/// The path by which the artifact is run from the working directory.
pub open spec fn artifact_command() -> Seq<char> {
    seq!['.', '/'] + artifact_name()
}

/// The compiler program to launch.
pub fn compiler_program() -> (r: String)
    ensures
        r@ == compiler_name(),
{
    proof {
        reveal_strlit("gcc");
    }
    "gcc".to_owned()
}

/// The arguments the compiler is launched with: `<path> -o <artifact>`.
pub fn compiler_args(path: &str) -> (r: Vec<String>)
    ensures
        r@.len() == 3,
        r@[0]@ == path@,
        r@[1]@ == seq!['-', 'o'],
        r@[2]@ == artifact_name(),
{
    proof {
        reveal_strlit("-o");
        reveal_strlit("output");
    }
    let mut r: Vec<String> = Vec::new();
    r.push(path.to_owned());
    r.push("-o".to_owned());
    r.push("output".to_owned());
    r
}

/// The command that runs the compiled artifact.
pub fn artifact_program() -> (r: String)
    ensures
        r@ == artifact_command(),
{
    proof {
        reveal_strlit("./output");
        assert(artifact_command() =~= seq!['.', '/', 'o', 'u', 't', 'p', 'u', 't']);
    }
    "./output".to_owned()
}

/// What one compile produced: success, or failure with the compiler's
/// error output verbatim.
#[derive(Debug, Clone, PartialEq, Eq)]
pub struct CompileResult {
    pub success: bool,
    pub diagnostics: String,
}

impl CompileResult {
    /// Builds the result from the compiler's exit status and its captured
    /// error stream: a zero status gives success with no diagnostics, any
    /// other status failure with the error text.
    pub fn from_status(status_ok: bool, stderr: String) -> (r: CompileResult)
        ensures
            r.success == status_ok,
            status_ok ==> r.diagnostics@ == Seq::<char>::empty(),
            !status_ok ==> r.diagnostics@ == stderr@,
    {
        if status_ok {
            CompileResult { success: true, diagnostics: String::new() }
        } else {
            CompileResult { success: false, diagnostics: stderr }
        }
    }
}

} // verus!
