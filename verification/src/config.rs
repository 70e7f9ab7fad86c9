//! Configuration of the controller's services, and the file-system layout
//! each service derives from it.
//!
//! Reading the configuration from a file or the command line, and
//! canonicalizing the directories it names, are I/O concerns that live with
//! the binaries; here stand the configuration records themselves, their
//! defaults, and the path derivations, all paths carried as plain strings.

use vstd::prelude::*;
use vstd::string::StringExecFns;
use crate::strutil::{spec_decimal, spec_decimal_i64, i64_to_string, u128_to_string};
use crate::types::PipelineId;
use crate::Version;

verus! {

/// Default port number for the HTTP service.
pub fn default_server_port() -> (r: u16)
    ensures
        r == 8080,
{
    8080
}

/// Default bind address for the HTTP service.
pub fn default_server_address() -> (r: String)
    ensures
        r@ == "127.0.0.1"@,
{
    "127.0.0.1".to_owned()
}

/// Default override path for the generated crates' dependencies.
pub fn default_override_path() -> (r: String)
    ensures
        r@ == "."@,
{
    ".".to_owned()
}

/// Default location of the SQL compiler.
pub fn default_sql_compiler_home() -> (r: String)
    ensures
        r@ == "sql-to-dbsp-compiler"@,
{
    "sql-to-dbsp-compiler".to_owned()
}

/// Default database connection string: an embedded database under the
/// working directory.
pub fn default_db_connection_string() -> (r: String)
    ensures
        r@ == "postgres-embed"@,
{
    "postgres-embed".to_owned()
}

/// Default port for serving compiled binaries to runners.
pub fn default_binary_ref_port() -> (r: u16)
    ensures
        r == 8085,
{
    8085
}

/// Default compilation profile for programs that do not pick their own.
pub fn default_compilation_profile() -> (r: CompilationProfile)
    ensures
        r is Optimized,
{
    CompilationProfile::Optimized
}

/// Default directories in which packaged demos are stored.
pub fn default_demos_dir() -> (r: Vec<String>)
    ensures
        r@.len() == 1,
        r@[0]@ == "demo/packaged/sql"@,
{
    let mut v: Vec<String> = Vec::new();
    v.push("demo/packaged/sql".to_owned());
    v
}

/// Database configuration for the pipeline manager, read from a
/// configuration file or from command-line arguments by the binaries.
#[derive(Debug, Clone)]
pub struct DatabaseConfig {
    /// The relational database to use for state management: either
    /// `postgres://<host>:<port>` or `postgres-embed`, which creates a
    /// database under the working directory.
    pub db_connection_string: String,
}

impl DatabaseConfig {
    /// Database connection string. The caller must hand in one of the two
    /// accepted `postgres` forms; anything else is rejected up front by the
    /// binaries' argument handling.
    pub fn database_connection_string(&self) -> (r: String)
        requires
            self.db_connection_string@.len() >= 8,
            self.db_connection_string@.subrange(0, 8) == "postgres"@,
        ensures
            r@ == self.db_connection_string@,
    {
        self.db_connection_string.clone()
    }
}

/// The authentication provider the API server trusts.
#[derive(Clone, Copy, Debug, PartialEq, Eq, Structural)]
pub enum AuthProviderType {
    NoAuth,
    AwsCognito,
    GoogleIdentity,
}

impl Default for AuthProviderType {
    /// Authentication is off unless asked for.
    fn default() -> (r: Self)
        ensures
            r is NoAuth,
    {
        AuthProviderType::NoAuth
    }
}

impl AuthProviderType {
    /// The provider's name as the configuration surface spells it.
    pub fn label(&self) -> (r: String)
        ensures
            self is NoAuth ==> r@ == "none"@,
            self is AwsCognito ==> r@ == "aws-cognito"@,
            self is GoogleIdentity ==> r@ == "google-identity"@,
    {
        match self {
            AuthProviderType::NoAuth => "none".to_owned(),
            AuthProviderType::AwsCognito => "aws-cognito".to_owned(),
            AuthProviderType::GoogleIdentity => "google-identity".to_owned(),
        }
    }
}

/// Configuration of the user-facing API server.
#[derive(Debug, Clone)]
pub struct ApiServerConfig {
    /// Directory where the API server keeps its file-system state.
    pub api_server_working_directory: String,
    /// Port number for the HTTP service.
    pub port: u16,
    /// Bind address for the HTTP service.
    pub bind_address: String,
    /// Bearer-token authorization provider, if any.
    pub auth_provider: AuthProviderType,
    /// Dump the API specification and exit at once.
    pub dump_openapi: bool,
    /// Server configuration file, where one is used.
    pub config_file: Option<String>,
    /// Allowed origins for cross-origin requests; unset allows any.
    pub allowed_origins: Option<Vec<String>>,
    /// Run with permissive cross-origin settings.
    pub dev_mode: bool,
    /// Directories in which demos are stored for clients.
    pub demos_dir: Vec<String>,
    /// Telemetry key; empty switches telemetry off.
    pub telemetry: String,
    /// The host and port under which the runner's web server is reachable.
    pub runner_hostname_port: String,
}

impl ApiServerConfig {
    /// Where the embedded database keeps its data:
    /// `<working-directory>/data`.
    pub fn postgres_embed_data_dir(&self) -> (r: String)
        ensures
            r@ == self.api_server_working_directory@ + "/data"@,
    {
        let mut r = self.api_server_working_directory.clone();
        r.append("/data");
        r
    }
}

/// Profile under which a pipeline's program is compiled.
#[derive(Clone, Copy, Debug, PartialEq, Eq, Structural)]
pub enum CompilationProfile {
    /// Fastest compilation, for development.
    Dev,
    /// Faster compilation at the cost of runtime performance.
    Unoptimized,
    /// Faster runtime at the cost of compilation time.
    Optimized,
}

impl CompilationProfile {
    /// The target folder the Rust compiler writes this profile to.
    pub fn to_target_folder(&self) -> (r: String)
        ensures
            self is Dev ==> r@ == "debug"@,
            self is Unoptimized ==> r@ == "unoptimized"@,
            self is Optimized ==> r@ == "optimized"@,
    {
        match self {
            CompilationProfile::Dev => "debug".to_owned(),
            CompilationProfile::Unoptimized => "unoptimized".to_owned(),
            CompilationProfile::Optimized => "optimized".to_owned(),
        }
    }
}

/// The binary artifact name for one compiled program version. Derivations
/// key on the pipeline identifier, never the name, so that pipelines can be
/// renamed without recompiling.
pub open spec fn spec_binary_name(pipeline_id: PipelineId, version: Version) -> Seq<char> {
    "project_"@ + spec_decimal(pipeline_id.0 as nat) + "_v"@ + spec_decimal_i64(version.0 as int)
}

/// The crate name generated for one pipeline's program.
pub open spec fn spec_crate_name(pipeline_id: PipelineId) -> Seq<char> {
    "project"@ + spec_decimal(pipeline_id.0 as nat)
}

/// Configuration of the compiler service.
#[derive(Debug, Clone)]
pub struct CompilerConfig {
    /// Directory where the compiler keeps its file-system state: generated
    /// crates, compiled binaries, logs.
    pub compiler_working_directory: String,
    /// Profile used for programs that do not pick their own.
    pub compilation_profile: CompilationProfile,
    /// Location of the SQL compiler.
    pub sql_compiler_home: String,
    /// Overrides where the generated crates look for their dependencies.
    pub dbsp_override_path: String,
    /// Precompile the generated crates' dependencies and exit at once.
    pub precompile: bool,
    /// The host under which compiled binaries are served to runners.
    pub binary_ref_host: String,
    /// The port under which compiled binaries are served to runners.
    pub binary_ref_port: u16,
}

impl CompilerConfig {
    /// Binary name for a program version: see [`spec_binary_name`].
    pub fn binary_name(pipeline_id: PipelineId, version: Version) -> (r: String)
        ensures
            r@ == spec_binary_name(pipeline_id, version),
    {
        let mut r = "project_".to_owned();
        let id = u128_to_string(pipeline_id.0);
        r.append(id.as_str());
        r.append("_v");
        let v = i64_to_string(version.0);
        r.append(v.as_str());
        r
    }

    /// Crate name for a pipeline's program: see [`spec_crate_name`].
    pub fn crate_name(pipeline_id: PipelineId) -> (r: String)
        ensures
            r@ == spec_crate_name(pipeline_id),
    {
        let mut r = "project".to_owned();
        let id = u128_to_string(pipeline_id.0);
        r.append(id.as_str());
        r
    }

    /// Directory holding the generated cargo workspace:
    /// `<working-directory>/cargo_workspace`.
    pub fn workspace_dir(&self) -> (r: String)
        ensures
            r@ == self.compiler_working_directory@ + "/cargo_workspace"@,
    {
        let mut r = self.compiler_working_directory.clone();
        r.append("/cargo_workspace");
        r
    }

    /// Directory holding the binary artifacts of compiled programs:
    /// `<working-directory>/binaries`.
    pub fn binaries_dir(&self) -> (r: String)
        ensures
            r@ == self.compiler_working_directory@ + "/binaries"@,
    {
        let mut r = self.compiler_working_directory.clone();
        r.append("/binaries");
        r
    }

    /// Location of the versioned executable of one program version.
    pub fn versioned_executable(&self, pipeline_id: PipelineId, version: Version) -> (r: String)
        ensures
            r@ == self.compiler_working_directory@ + "/binaries"@ + "/"@ + spec_binary_name(
                pipeline_id,
                version,
            ),
    {
        let mut r = self.binaries_dir();
        r.append("/");
        let name = Self::binary_name(pipeline_id, version);
        r.append(name.as_str());
        r
    }

    /// Location of the compiled executable in the cargo target directory.
    /// This is generally not the executable a pipeline runs; the versioned
    /// copy is.
    pub fn target_executable(&self, pipeline_id: PipelineId, profile: &CompilationProfile) -> (r:
        String)
        ensures
            ({
                let folder = if profile is Dev {
                    "debug"@
                } else if profile is Unoptimized {
                    "unoptimized"@
                } else {
                    "optimized"@
                };
                r@ == self.compiler_working_directory@ + "/cargo_workspace"@ + "/target/"@ + folder
                    + "/"@ + spec_crate_name(pipeline_id)
            }),
    {
        let mut r = self.workspace_dir();
        r.append("/target/");
        let folder = profile.to_target_folder();
        r.append(folder.as_str());
        r.append("/");
        let name = Self::crate_name(pipeline_id);
        r.append(name.as_str());
        r
    }

    /// Directory holding the crate generated for one pipeline's program:
    /// `<working-directory>/cargo_workspace/project<id>`.
    pub fn project_dir(&self, pipeline_id: PipelineId) -> (r: String)
        ensures
            r@ == self.compiler_working_directory@ + "/cargo_workspace"@ + "/"@ + spec_crate_name(
                pipeline_id,
            ),
    {
        let mut r = self.workspace_dir();
        r.append("/");
        let name = Self::crate_name(pipeline_id);
        r.append(name.as_str());
        r
    }

    /// File holding the SQL code of one pipeline's program.
    pub fn sql_file_path(&self, pipeline_id: PipelineId) -> (r: String)
        ensures
            r@ == self.compiler_working_directory@ + "/cargo_workspace"@ + "/"@ + spec_crate_name(
                pipeline_id,
            ) + "/project.sql"@,
    {
        let mut r = self.project_dir(pipeline_id);
        r.append("/project.sql");
        r
    }

    /// The file describing the program's input and output tables, beside
    /// the SQL file.
    pub fn schema_path(&self, pipeline_id: PipelineId) -> (r: String)
        ensures
            r@ == self.compiler_working_directory@ + "/cargo_workspace"@ + "/"@ + spec_crate_name(
                pipeline_id,
            ) + "/schema.json"@,
    {
        let mut r = self.project_dir(pipeline_id);
        r.append("/schema.json");
        r
    }

    /// The generated main source file of one pipeline's program.
    pub fn rust_program_path(&self, pipeline_id: PipelineId) -> (r: String)
        ensures
            r@ == self.compiler_working_directory@ + "/cargo_workspace"@ + "/"@ + spec_crate_name(
                pipeline_id,
            ) + "/src/main.rs"@,
    {
        let mut r = self.project_dir(pipeline_id);
        r.append("/src/main.rs");
        r
    }

    /// The manifest of the crate generated for one pipeline's program.
    pub fn project_toml_path(&self, pipeline_id: PipelineId) -> (r: String)
        ensures
            r@ == self.compiler_working_directory@ + "/cargo_workspace"@ + "/"@ + spec_crate_name(
                pipeline_id,
            ) + "/Cargo.toml"@,
    {
        let mut r = self.project_dir(pipeline_id);
        r.append("/Cargo.toml");
        r
    }

    /// The user-defined-function source file of one pipeline's program.
    pub fn udf_path(&self, pipeline_id: PipelineId) -> (r: String)
        ensures
            r@ == self.compiler_working_directory@ + "/cargo_workspace"@ + "/"@ + spec_crate_name(
                pipeline_id,
            ) + "/src/udf.rs"@,
    {
        let mut r = self.project_dir(pipeline_id);
        r.append("/src/udf.rs");
        r
    }

    /// The user-defined-function stubs the compiler generates.
    pub fn udf_stub_path(&self, pipeline_id: PipelineId) -> (r: String)
        ensures
            r@ == self.compiler_working_directory@ + "/cargo_workspace"@ + "/"@ + spec_crate_name(
                pipeline_id,
            ) + "/src/stubs.rs"@,
    {
        let mut r = self.project_dir(pipeline_id);
        r.append("/src/stubs.rs");
        r
    }

    /// The manifest of the generated cargo workspace.
    pub fn workspace_toml_path(&self) -> (r: String)
        ensures
            r@ == self.compiler_working_directory@ + "/cargo_workspace"@ + "/Cargo.toml"@,
    {
        let mut r = self.workspace_dir();
        r.append("/Cargo.toml");
        r
    }

    /// The SQL compiler executable.
    pub fn sql_compiler_path(&self) -> (r: String)
        ensures
            r@ == self.sql_compiler_home@ + "/SQL-compiler/sql-to-dbsp"@,
    {
        let mut r = self.sql_compiler_home.clone();
        r.append("/SQL-compiler/sql-to-dbsp");
        r
    }

    /// The libraries that ship with the SQL compiler.
    pub fn sql_lib_path(&self) -> (r: String)
        ensures
            r@ == self.sql_compiler_home@ + "/lib"@,
    {
        let mut r = self.sql_compiler_home.clone();
        r.append("/lib");
        r
    }

    /// The manifest template that ships with the SQL compiler.
    pub fn project_toml_template_path(&self) -> (r: String)
        ensures
            r@ == self.sql_compiler_home@ + "/temp/Cargo.toml"@,
    {
        let mut r = self.sql_compiler_home.clone();
        r.append("/temp/Cargo.toml");
        r
    }

    /// Where one compilation's standard output stream is redirected.
    pub fn compiler_stdout_path(&self, pipeline_id: PipelineId) -> (r: String)
        ensures
            r@ == self.compiler_working_directory@ + "/cargo_workspace"@ + "/"@ + spec_crate_name(
                pipeline_id,
            ) + "/out.log"@,
    {
        let mut r = self.project_dir(pipeline_id);
        r.append("/out.log");
        r
    }

    /// Where one compilation's standard error stream is redirected.
    pub fn compiler_stderr_path(&self, pipeline_id: PipelineId) -> (r: String)
        ensures
            r@ == self.compiler_working_directory@ + "/cargo_workspace"@ + "/"@ + spec_crate_name(
                pipeline_id,
            ) + "/err.log"@,
    {
        let mut r = self.project_dir(pipeline_id);
        r.append("/err.log");
        r
    }
}

/// Configuration of the local-process runner.
#[derive(Debug, Clone)]
pub struct LocalRunnerConfig {
    /// Port of the runner's own web server.
    pub runner_main_port: u16,
    /// Directory where the runner keeps its file-system state: fetched
    /// binaries, configuration files.
    pub runner_working_directory: String,
    /// The host under which pipelines created by this runner are reachable.
    pub pipeline_host: String,
}

impl LocalRunnerConfig {
    /// Directory holding one pipeline's files at runtime.
    pub fn pipeline_dir(&self, pipeline_id: PipelineId) -> (r: String)
        ensures
            r@ == self.runner_working_directory@ + "/pipelines/pipeline"@ + spec_decimal(
                pipeline_id.0 as nat,
            ),
    {
        let mut r = self.runner_working_directory.clone();
        r.append("/pipelines/pipeline");
        let id = u128_to_string(pipeline_id.0);
        r.append(id.as_str());
        r
    }

    /// Where the fetched binary of one program version is written.
    pub fn binary_file_path(&self, pipeline_id: PipelineId, version: Version) -> (r: String)
        ensures
            r@ == self.runner_working_directory@ + "/pipelines/pipeline"@ + spec_decimal(
                pipeline_id.0 as nat,
            ) + "/program_"@ + spec_decimal(pipeline_id.0 as nat) + "_v"@ + spec_decimal_i64(
                version.0 as int,
            ),
    {
        let mut r = self.pipeline_dir(pipeline_id);
        r.append("/program_");
        let id = u128_to_string(pipeline_id.0);
        r.append(id.as_str());
        r.append("_v");
        let v = i64_to_string(version.0);
        r.append(v.as_str());
        r
    }

    /// Where one pipeline's configuration file is written.
    pub fn config_file_path(&self, pipeline_id: PipelineId) -> (r: String)
        ensures
            r@ == self.runner_working_directory@ + "/pipelines/pipeline"@ + spec_decimal(
                pipeline_id.0 as nat,
            ) + "/config.yaml"@,
    {
        let mut r = self.pipeline_dir(pipeline_id);
        r.append("/config.yaml");
        r
    }
}

} // verus!
