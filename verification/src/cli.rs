//! The rules of the command-line front end: which files an operation reads
//! and writes, where its key comes from, which cipher a name selects and
//! which messages are shown. Reading arguments, prompts and files is left to
//! the caller.

pub mod cipher;
pub mod decrypt;
pub mod key_handling;
pub mod output;
pub mod paths;

pub use cipher::get_cipher;
pub use cipher::get_supported_ciphers;
pub use decrypt::decrypt_failure_message;
pub use key_handling::get_encryption_key;
pub use key_handling::get_key_arg;
pub use key_handling::strip_base64_prefix;
pub use output::OutputConfig;
pub use paths::check_files;
pub use paths::derive_output_path;
pub use paths::resolve_decrypt_input;
pub use paths::resolve_encrypt_input_path;
pub use paths::resolve_encrypt_output_path;

use paths::derived_output_path;
use paths::encrypt_input_path_of;
use paths::encrypt_output_path_of;
use vstd::prelude::*;

verus! {

/// The command line, parsed.
pub struct Cli {
    /// Show nothing at all.
    pub silent: bool,
    /// Overwrite an output file that exists.
    pub force: bool,
    /// Show errors only.
    pub quiet: bool,
    /// Delete the input file after encryption.
    pub prune: bool,
    /// Ask no question.
    pub no_interaction: bool,
    /// How many times `-v` was given.
    pub verbose: u8,
    /// The operation.
    pub command: Commands,
}

/// The operation chosen on the command line, with its options.
#[allow(inconsistent_fields)]
pub enum Commands {
    /// Encrypt an environment file.
    Encrypt {
        /// Name of the cipher.
        cipher: String,
        /// The key, where it was given.
        key: Option<String>,
        /// Path of the input file, where it was given.
        input: Option<String>,
        /// Name of the environment, where it was given.
        env: Option<String>,
    },
    /// Decrypt an encrypted environment file.
    Decrypt {
        /// Name of the cipher.
        cipher: String,
        /// The key, where it was given.
        key: Option<String>,
        /// Path of the input file.
        input: String,
    },
}

/// What a command line asks for, with the paths resolved.
pub enum Job {
    /// Encrypt `input_path` to `output_path`.
    Encrypt {
        /// Name of the cipher.
        cipher: String,
        /// The key, where it was given.
        key: Option<String>,
        /// Path of the file to read.
        input_path: String,
        /// Path of the file to write.
        output_path: String,
        /// Which messages are shown.
        output_config: OutputConfig,
        /// Overwrite an output file that exists.
        force: bool,
        /// Delete the input file afterwards.
        prune: bool,
        /// Ask no question.
        no_interaction: bool,
    },
    /// Decrypt `input_path` to `output_path`.
    Decrypt {
        /// Name of the cipher.
        cipher: String,
        /// The key, where it was given.
        key: Option<String>,
        /// Path of the file to read.
        input_path: String,
        /// Path of the file to write.
        output_path: String,
        /// Which messages are shown.
        output_config: OutputConfig,
        /// Overwrite an output file that exists.
        force: bool,
        /// Ask no question.
        no_interaction: bool,
    },
}

/// Whether an output configuration is the one that the global flags of a
/// command line ask for.
pub open spec fn is_output_config_of(config: OutputConfig, cli: Cli) -> bool {
    &&& config.is_silent() == cli.silent
    &&& config.is_quiet() == cli.quiet
    &&& config.level() == cli.verbose
}

/// Turns a parsed command line into the job to do.
///
/// Cipher name, key and flags are handed on. Encryption reads the path
/// given, else the file of the environment named, else `.env`; it writes the
/// encrypted file of the environment named beside its input, else the path
/// derived from its input path. Decryption reads the path given and writes
/// the path derived from it.
pub fn run(cli: Cli) -> (job: Job)
    ensures
        match cli.command {
            Commands::Encrypt { cipher, key, input, env } => {
                &&& job matches Job::Encrypt {
                    cipher: job_cipher,
                    key: job_key,
                    input_path,
                    output_path,
                    output_config,
                    force,
                    prune,
                    no_interaction,
                }
                &&& job_cipher == cipher
                &&& job_key == key
                &&& input_path@ == encrypt_input_path_of(input, env)
                &&& output_path@ == encrypt_output_path_of(input_path@, env)
                &&& is_output_config_of(output_config, cli)
                &&& force == cli.force
                &&& prune == cli.prune
                &&& no_interaction == cli.no_interaction
            },
            Commands::Decrypt { cipher, key, input } => {
                &&& job matches Job::Decrypt {
                    cipher: job_cipher,
                    key: job_key,
                    input_path,
                    output_path,
                    output_config,
                    force,
                    no_interaction,
                }
                &&& job_cipher == cipher
                &&& job_key == key
                &&& input_path == input
                &&& output_path@ == derived_output_path(input@, false)
                &&& is_output_config_of(output_config, cli)
                &&& force == cli.force
                &&& no_interaction == cli.no_interaction
            },
        },
{
    let output_config = OutputConfig::new(cli.silent, cli.quiet, cli.verbose);
    match cli.command {
        Commands::Encrypt { cipher, key, input, env } => {
            let input_path = resolve_encrypt_input_path(&input, &env);
            let output_path = resolve_encrypt_output_path(input_path.as_str(), &env);
            Job::Encrypt {
                cipher,
                key,
                input_path,
                output_path,
                output_config,
                force: cli.force,
                prune: cli.prune,
                no_interaction: cli.no_interaction,
            }
        },
        Commands::Decrypt { cipher, key, input } => {
            let input_path = resolve_decrypt_input(input);
            let output_path = derive_output_path(input_path.as_str(), false);
            Job::Decrypt {
                cipher,
                key,
                input_path,
                output_path,
                output_config,
                force: cli.force,
                no_interaction: cli.no_interaction,
            }
        },
    }
}

} // verus!
