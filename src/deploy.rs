use vstd::prelude::*;

verus! {

/// The program that performs the deployment.
pub const DEPLOY_TOOL: &'static str = "forge";

/// The flag that introduces the constructor arguments.
pub const CONSTRUCTOR_ARGS_FLAG: &'static str = "--constructor-args";

/// What a caller asks for: deploy `contract_name` through the node at
/// `endpoint`, signing with `credential`.
pub struct DeploymentRequest {
    pub credential: String,
    pub endpoint: String,
    pub contract_name: String,
    pub constructor_args: Option<Vec<String>>,
}

/// The request as plain character sequences.
pub ghost struct RequestModel {
    pub credential: Seq<char>,
    pub endpoint: Seq<char>,
    pub contract_name: Seq<char>,
    pub constructor_args: Option<Seq<Seq<char>>>,
}

pub open spec fn strings_view(v: Seq<String>) -> Seq<Seq<char>> {
    v.map_values(|s: String| s@)
}

impl View for DeploymentRequest {
    type V = RequestModel;

    open spec fn view(&self) -> RequestModel {
        RequestModel {
            credential: self.credential@,
            endpoint: self.endpoint@,
            contract_name: self.contract_name@,
            constructor_args: match self.constructor_args {
                Some(a) => Some(strings_view(a@)),
                None => None,
            },
        }
    }
}

/// `create <name> --rpc-url <endpoint> --private-key <credential>`.
pub open spec fn base_args(req: RequestModel) -> Seq<Seq<char>> {
    seq![
        "create"@,
        req.contract_name,
        "--rpc-url"@,
        req.endpoint,
        "--private-key"@,
        req.credential,
    ]
}

/// The arguments handed to the deployment tool: the base arguments, followed
/// by the constructor flag and the constructor arguments in their order when
/// there is at least one of them.
pub open spec fn command_args(req: RequestModel) -> Seq<Seq<char>> {
    match req.constructor_args {
        Some(a) => if a.len() > 0 {
            base_args(req).push(CONSTRUCTOR_ARGS_FLAG@) + a
        } else {
            base_args(req)
        },
        None => base_args(req),
    }
}

/// The argument list for the deployment tool, each value passed verbatim.
pub fn build_args(request: &DeploymentRequest) -> (r: Vec<String>)
    ensures
        strings_view(r@) == command_args(request@),
{
    let mut r: Vec<String> = Vec::new();
    r.push("create".to_owned());
    r.push(request.contract_name.clone());
    r.push("--rpc-url".to_owned());
    r.push(request.endpoint.clone());
    r.push("--private-key".to_owned());
    r.push(request.credential.clone());
    assert(strings_view(r@) =~= base_args(request@));
    match &request.constructor_args {
        Some(args) => {
            if args.len() > 0 {
                r.push(CONSTRUCTOR_ARGS_FLAG.to_owned());
                let ghost start = strings_view(r@);
                let mut i: usize = 0;
                while i < args.len()
                    invariant
                        i <= args@.len(),
                        strings_view(r@) == start + strings_view(args@.subrange(0, i as int)),
                    decreases args@.len() - i,
                {
                    let ghost before = r@;
                    r.push(args[i].clone());
                    assert(strings_view(r@) =~= strings_view(before).push(args@[i as int]@));
                    assert(strings_view(args@.subrange(0, i + 1)) =~= strings_view(
                        args@.subrange(0, i as int),
                    ).push(args@[i as int]@));
                    assert(strings_view(r@) =~= start + strings_view(args@.subrange(0, i + 1)));
                    i = i + 1;
                }
                assert(args@.subrange(0, args@.len() as int) =~= args@);
            }
        },
        None => {},
    }
    r
}

/// A command ready to run: the program and its argument vector. The
/// arguments go to the program as they are, with no shell in between.
pub struct DeploymentCommand {
    pub program: String,
    pub args: Vec<String>,
}

/// The command that deploys what `request` describes.
pub fn build_command(request: &DeploymentRequest) -> (c: DeploymentCommand)
    ensures
        c.program@ == DEPLOY_TOOL@,
        strings_view(c.args@) == command_args(request@),
{
    DeploymentCommand { program: DEPLOY_TOOL.to_owned(), args: build_args(request) }
}

/// What the finished tool left behind: whether it exited with status zero,
/// and the bytes it wrote to its two streams.
pub struct ProcessOutput {
    pub success: bool,
    pub stdout: Vec<u8>,
    pub stderr: Vec<u8>,
}

/// What a deployment came to: whether the tool succeeded, and its two
/// streams as text.
pub struct DeploymentResult {
    pub success: bool,
    pub stdout: String,
    pub stderr: String,
}

/// The tool could not be started, or waiting for it failed.
pub enum DeployError {
    LaunchFailure { cause: String },
}

/// The text that lossy UTF-8 decoding makes of a byte sequence.
pub uninterp spec fn utf8_lossy(b: Seq<u8>) -> Seq<char>;

/// Relies on `String::from_utf8_lossy`, which decodes the bytes as UTF-8 and
/// puts U+FFFD in place of each invalid sequence; the text depends on the
/// bytes alone.
#[verifier::external_body]
fn decode_lossy(b: &Vec<u8>) -> (r: String)
    ensures
        r@ == utf8_lossy(b@),
{
    String::from_utf8_lossy(b.as_slice()).into_owned()
}

/// The result of a finished run: success is exit status zero, and both
/// streams are decoded as text.
pub fn interpret_output(output: &ProcessOutput) -> (r: DeploymentResult)
    ensures
        r.success == output.success,
        r.stdout@ == utf8_lossy(output.stdout@),
        r.stderr@ == utf8_lossy(output.stderr@),
{
    let stdout = decode_lossy(&output.stdout);
    let stderr = decode_lossy(&output.stderr);
    DeploymentResult { success: output.success, stdout, stderr }
}

/// The result of an attempt to run the tool: `cause` when it could not be
/// launched or awaited, else the interpreted output.
pub fn conclude(attempt: Result<ProcessOutput, String>) -> (r: Result<DeploymentResult, DeployError>)
    ensures
        match attempt {
            Ok(output) => match r {
                Ok(res) => res.success == output.success
                    && res.stdout@ == utf8_lossy(output.stdout@)
                    && res.stderr@ == utf8_lossy(output.stderr@),
                Err(_) => false,
            },
            Err(cause) => match r {
                Err(DeployError::LaunchFailure { cause: c }) => c@ == cause@,
                Ok(_) => false,
            },
        },
{
    match attempt {
        Ok(output) => Ok(interpret_output(&output)),
        Err(cause) => Err(DeployError::LaunchFailure { cause }),
    }
}

/// The tag in front of the tool's output after a successful deployment.
pub const RESPONSE_MARKER: &'static str = "FORGE::RESPONSE::";

/// The first line written after a failed deployment.
pub const FAILURE_BANNER: &'static str = "❌ Failed to deploy contract with Forge.";

/// The prefix of the line that carries the tool's error output.
pub const ERROR_PREFIX: &'static str = "Error: ";

/// What to tell the user about a deployment.
pub enum Report {
    /// For standard output: the response marker, then the tool's output.
    Response { marker: String, body: String },
    /// For standard error: the failure banner, then a line with the tool's
    /// error output behind `Error: `.
    Failure { banner: String, detail: String },
}

/// The report of `result`: its output after success, its error output after
/// failure, passed on as it is.
pub fn report(result: &DeploymentResult) -> (r: Report)
    ensures
        result.success ==> match r {
            Report::Response { marker, body } => marker@ == RESPONSE_MARKER@ && body@
                == result.stdout@,
            Report::Failure { .. } => false,
        },
        !result.success ==> match r {
            Report::Failure { banner, detail } => banner@ == FAILURE_BANNER@ && detail@
                == ERROR_PREFIX@ + result.stderr@,
            Report::Response { .. } => false,
        },
{
    if result.success {
        Report::Response { marker: RESPONSE_MARKER.to_owned(), body: result.stdout.clone() }
    } else {
        let mut detail = ERROR_PREFIX.to_owned();
        detail.append(result.stderr.as_str());
        Report::Failure { banner: FAILURE_BANNER.to_owned(), detail }
    }
}

/// Without constructor arguments the command is exactly
/// `create <name> --rpc-url <endpoint> --private-key <credential>`, and the
/// constructor flag does not occur in it unless one of those three values is
/// that flag itself.
pub proof fn lemma_no_constructor_args_omits_flag(req: RequestModel)
    requires
        req.constructor_args is None,
        req.contract_name != CONSTRUCTOR_ARGS_FLAG@,
        req.endpoint != CONSTRUCTOR_ARGS_FLAG@,
        req.credential != CONSTRUCTOR_ARGS_FLAG@,
    ensures
        command_args(req) == base_args(req),
        !command_args(req).contains(CONSTRUCTOR_ARGS_FLAG@),
{
    reveal_strlit("create");
    reveal_strlit("--rpc-url");
    reveal_strlit("--private-key");
    reveal_strlit("--constructor-args");
    assert("create"@.len() != CONSTRUCTOR_ARGS_FLAG@.len());
    assert("--rpc-url"@.len() != CONSTRUCTOR_ARGS_FLAG@.len());
    assert("--private-key"@.len() != CONSTRUCTOR_ARGS_FLAG@.len());
}

/// With a non-empty list of constructor arguments, the flag is the seventh
/// argument and the constructor arguments follow it directly, all of them,
/// in their order, and nothing after them.
pub proof fn lemma_constructor_args_follow_flag(req: RequestModel)
    requires
        req.constructor_args is Some,
        req.constructor_args->Some_0.len() > 0,
    ensures
        ({
            let a = req.constructor_args->Some_0;
            let c = command_args(req);
            &&& c.len() == 7 + a.len()
            &&& c[6] == CONSTRUCTOR_ARGS_FLAG@
            &&& c.subrange(7, c.len() as int) == a
        }),
{
    let a = req.constructor_args->Some_0;
    let c = command_args(req);
    assert(c.subrange(7, c.len() as int) =~= a);
}

/// The value after `--rpc-url` is the endpoint, unchanged, for every request.
pub proof fn lemma_endpoint_verbatim(req: RequestModel)
    ensures
        command_args(req)[2] == "--rpc-url"@,
        command_args(req)[3] == req.endpoint,
{
}

/// The value after `--private-key` is the credential, unchanged, for every
/// request.
pub proof fn lemma_credential_verbatim(req: RequestModel)
    ensures
        command_args(req)[4] == "--private-key"@,
        command_args(req)[5] == req.credential,
{
}

} // verus!
