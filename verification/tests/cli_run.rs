use envcrypt::cli::run;
use envcrypt::cli::Cli;
use envcrypt::cli::Commands;
use envcrypt::cli::Job;
use envcrypt::cli::OutputConfig;

fn cli(command: Commands) -> Cli {
    Cli {
        silent: false,
        force: false,
        quiet: false,
        prune: false,
        no_interaction: false,
        verbose: 0,
        command,
    }
}

fn encrypt(input: Option<&str>, env: Option<&str>) -> Commands {
    Commands::Encrypt {
        cipher: "AES-256-CBC".to_string(),
        key: Some("k".to_string()),
        input: input.map(|s| s.to_string()),
        env: env.map(|s| s.to_string()),
    }
}

fn paths(job: Job) -> (String, String) {
    match job {
        Job::Encrypt { input_path, output_path, .. } => (input_path, output_path),
        Job::Decrypt { input_path, output_path, .. } => (input_path, output_path),
    }
}

#[test]
fn run_encrypt_defaults() {
    let job = run(cli(encrypt(None, None)));
    assert!(matches!(job, Job::Encrypt { .. }));
    assert_eq!(paths(job), (".env".to_string(), ".env.encrypted".to_string()));
}

#[test]
fn run_encrypt_with_env() {
    assert_eq!(
        paths(run(cli(encrypt(None, Some("local"))))),
        (".env.local".to_string(), ".env.local.encrypted".to_string())
    );
}

#[test]
fn run_encrypt_with_input() {
    assert_eq!(
        paths(run(cli(encrypt(Some("config/.env"), None)))),
        ("config/.env".to_string(), "config/.env.encrypted".to_string())
    );
}

#[test]
fn run_encrypt_with_env_and_input_writes_the_env_file_beside_the_input() {
    let (input_path, output_path) = paths(run(cli(encrypt(Some(".env"), Some("production")))));
    assert_eq!(input_path, ".env");
    assert_eq!(output_path, ".env.production.encrypted");
}

#[test]
fn run_decrypt_derives_the_output() {
    let command = Commands::Decrypt {
        cipher: "AES-256-CBC".to_string(),
        key: None,
        input: ".env.local.encrypted".to_string(),
    };
    let job = run(cli(command));
    assert!(matches!(job, Job::Decrypt { .. }));
    assert_eq!(
        paths(job),
        (".env.local.encrypted".to_string(), ".env.local".to_string())
    );
}

#[test]
fn run_hands_on_cipher_key_and_flags() {
    let mut parsed = cli(encrypt(None, None));
    parsed.force = true;
    parsed.prune = true;
    parsed.no_interaction = true;
    parsed.quiet = true;
    parsed.verbose = 3;
    match run(parsed) {
        Job::Encrypt { cipher, key, output_config, force, prune, no_interaction, .. } => {
            assert_eq!(cipher, "AES-256-CBC");
            assert_eq!(key, Some("k".to_string()));
            assert_eq!(output_config, OutputConfig::new(false, true, 3));
            assert!(force);
            assert!(prune);
            assert!(no_interaction);
        }
        Job::Decrypt { .. } => panic!("an encryption was asked for"),
    }
    let mut parsed = cli(Commands::Decrypt {
        cipher: "aes-256-cbc".to_string(),
        key: Some("base64:k".to_string()),
        input: "x.encrypted".to_string(),
    });
    parsed.silent = true;
    parsed.force = true;
    match run(parsed) {
        Job::Decrypt { cipher, key, output_config, force, no_interaction, .. } => {
            assert_eq!(cipher, "aes-256-cbc");
            assert_eq!(key, Some("base64:k".to_string()));
            assert_eq!(output_config, OutputConfig::new(true, false, 0));
            assert!(force);
            assert!(!no_interaction);
        }
        Job::Encrypt { .. } => panic!("a decryption was asked for"),
    }
}

#[test]
fn output_config_levels() {
    let normal = OutputConfig::new(false, false, 0);
    assert!(normal.should_show_error());
    assert!(normal.should_show_info());
    assert!(!normal.should_show_verbose());
    assert!(!normal.should_show_debug());

    let one = OutputConfig::new(false, false, 1);
    assert!(one.should_show_info());
    assert!(!one.should_show_verbose());

    let two = OutputConfig::new(false, false, 2);
    assert!(two.should_show_verbose());
    assert!(!two.should_show_debug());

    let three = OutputConfig::new(false, false, 3);
    assert!(three.should_show_verbose());
    assert!(three.should_show_debug());
    assert!(OutputConfig::new(false, false, 255).should_show_debug());
}

#[test]
fn output_config_quiet_shows_errors_only() {
    let quiet = OutputConfig::new(false, true, 3);
    assert!(quiet.should_show_error());
    assert!(!quiet.should_show_info());
    assert!(!quiet.should_show_verbose());
    assert!(!quiet.should_show_debug());
}

#[test]
fn output_config_silent_shows_nothing() {
    for quiet in [false, true] {
        let silent = OutputConfig::new(true, quiet, 3);
        assert!(!silent.should_show_error());
        assert!(!silent.should_show_info());
        assert!(!silent.should_show_verbose());
        assert!(!silent.should_show_debug());
    }
}
