//! Runner configuration: the knobs that, together with the seed,
//! determine an entire run.

use vstd::prelude::*;

verus! {

/// Command-line options, as plain values.  Argument parsing itself
/// happens outside the library; unset options leave the configuration
/// (or its file-loaded form) untouched, and explicitly set options
/// take precedence.
#[derive(Debug)]
pub struct Cli {
    pub config: Option<String>,
    pub seed: Option<u64>,
    pub rounds: Option<u32>,
    pub queries_per_round: Option<u32>,
    pub timeout: Option<u64>,
    pub log_path: Option<String>,
    pub display_logs: bool,
    pub enable_tui: bool,
}

/// Unified configuration for the fuzzer: the fuzzing process itself
/// (rounds, queries, timeout), generation parameters, and display
/// parameters.
#[derive(Debug)]
pub struct RunnerConfig {
    pub seed: u64,
    pub rounds: u32,
    pub queries_per_round: u32,
    pub timeout_seconds: u64,
    pub log_path: Option<String>,
    pub display_logs: bool,
    pub enable_tui: bool,
    pub sample_interval_secs: u64,
    pub max_column_count: u64,
    pub max_row_count: u64,
    pub max_expr_level: u32,
    pub max_table_count: u32,
    pub max_insert_per_table: u32,
}

/// The configuration used when nothing is overridden: logs go to the
/// `logs` directory by default.
pub open spec fn spec_is_default_runner_config(c: RunnerConfig) -> bool {
    &&& c.seed == 42
    &&& c.rounds == 3
    &&& c.queries_per_round == 10
    &&& c.timeout_seconds == 2
    &&& c.log_path is Some
    &&& c.log_path.unwrap()@ == "logs"@
    &&& c.display_logs == false
    &&& c.enable_tui == true
    &&& c.sample_interval_secs == 5
    &&& c.max_column_count == 5
    &&& c.max_row_count == 100
    &&& c.max_expr_level == 3
    &&& c.max_table_count == 3
    &&& c.max_insert_per_table == 20
}

impl RunnerConfig {
    /// The generation bounds are usable: each maximum is at least one,
    /// and small enough that counts fit comfortably in machine words.
    pub open spec fn wf(&self) -> bool {
        &&& 1 <= self.max_column_count <= 1000
        &&& 1 <= self.max_row_count <= 1_000_000
        &&& 1 <= self.max_expr_level <= 100
        &&& 1 <= self.max_table_count <= 1000
    }

    pub fn new() -> (r: Self)
        ensures
            spec_is_default_runner_config(r),
    {
        Self::do_default()
    }

    /// The default configuration, spelled out.
    fn do_default() -> (r: Self)
        ensures
            spec_is_default_runner_config(r),
    {
        RunnerConfig {
            seed: 42,
            rounds: 3,
            queries_per_round: 10,
            timeout_seconds: 2,
            log_path: Some("logs".to_owned()),
            display_logs: false,
            enable_tui: true,
            sample_interval_secs: 5,
            max_column_count: 5,
            max_row_count: 100,
            max_expr_level: 3,
            max_table_count: 3,
            max_insert_per_table: 20,
        }
    }

    pub fn with_seed(self, seed: u64) -> (r: Self)
        ensures
            r == (RunnerConfig { seed, ..self }),
    {
        RunnerConfig { seed, ..self }
    }

    pub fn with_rounds(self, rounds: u32) -> (r: Self)
        ensures
            r == (RunnerConfig { rounds, ..self }),
    {
        RunnerConfig { rounds, ..self }
    }

    pub fn with_queries_per_round(self, queries_per_round: u32) -> (r: Self)
        ensures
            r == (RunnerConfig { queries_per_round, ..self }),
    {
        RunnerConfig { queries_per_round, ..self }
    }

    pub fn with_timeout_seconds(self, timeout_seconds: u64) -> (r: Self)
        ensures
            r == (RunnerConfig { timeout_seconds, ..self }),
    {
        RunnerConfig { timeout_seconds, ..self }
    }

    pub fn with_log_path(self, log_path: Option<String>) -> (r: Self)
        ensures
            r == (RunnerConfig { log_path, ..self }),
    {
        RunnerConfig { log_path, ..self }
    }

    pub fn with_display_logs(self, display_logs: bool) -> (r: Self)
        ensures
            r == (RunnerConfig { display_logs, ..self }),
    {
        RunnerConfig { display_logs, ..self }
    }

    pub fn with_enable_tui(self, enable_tui: bool) -> (r: Self)
        ensures
            r == (RunnerConfig { enable_tui, ..self }),
    {
        RunnerConfig { enable_tui, ..self }
    }

    pub fn with_sample_interval_secs(self, sample_interval_secs: u64) -> (r: Self)
        ensures
            r == (RunnerConfig { sample_interval_secs, ..self }),
    {
        RunnerConfig { sample_interval_secs, ..self }
    }

    pub fn with_max_column_count(self, max_column_count: u64) -> (r: Self)
        ensures
            r == (RunnerConfig { max_column_count, ..self }),
    {
        RunnerConfig { max_column_count, ..self }
    }

    pub fn with_max_row_count(self, max_row_count: u64) -> (r: Self)
        ensures
            r == (RunnerConfig { max_row_count, ..self }),
    {
        RunnerConfig { max_row_count, ..self }
    }

    pub fn with_max_expr_level(self, max_expr_level: u32) -> (r: Self)
        ensures
            r == (RunnerConfig { max_expr_level, ..self }),
    {
        RunnerConfig { max_expr_level, ..self }
    }

    pub fn with_max_table_count(self, max_table_count: u32) -> (r: Self)
        ensures
            r == (RunnerConfig { max_table_count, ..self }),
    {
        RunnerConfig { max_table_count, ..self }
    }

    pub fn with_max_insert_per_table(self, max_insert_per_table: u32) -> (r: Self)
        ensures
            r == (RunnerConfig { max_insert_per_table, ..self }),
    {
        RunnerConfig { max_insert_per_table, ..self }
    }

    /// Overlay command-line options on a base configuration (the
    /// defaults, or what a configuration file gave).  Explicitly set
    /// options always win.
    pub fn from_cli(cli: &Cli, base: Self) -> (r: Self)
        ensures
            r.seed == if cli.seed is Some {
                cli.seed.unwrap()
            } else {
                base.seed
            },
            r.rounds == if cli.rounds is Some {
                cli.rounds.unwrap()
            } else {
                base.rounds
            },
            r.queries_per_round == if cli.queries_per_round is Some {
                cli.queries_per_round.unwrap()
            } else {
                base.queries_per_round
            },
            r.timeout_seconds == if cli.timeout is Some {
                cli.timeout.unwrap()
            } else {
                base.timeout_seconds
            },
            cli.log_path is Some ==> r.log_path is Some && r.log_path.unwrap()@
                == cli.log_path.unwrap()@,
            cli.log_path is None ==> r.log_path == base.log_path,
            r.display_logs == cli.display_logs,
            r.enable_tui == cli.enable_tui,
            r.sample_interval_secs == base.sample_interval_secs,
            r.max_column_count == base.max_column_count,
            r.max_row_count == base.max_row_count,
            r.max_expr_level == base.max_expr_level,
            r.max_table_count == base.max_table_count,
            r.max_insert_per_table == base.max_insert_per_table,
    {
        let mut config = base;
        if let Some(seed) = cli.seed {
            config.seed = seed;
        }
        if let Some(rounds) = cli.rounds {
            config.rounds = rounds;
        }
        if let Some(queries) = cli.queries_per_round {
            config.queries_per_round = queries;
        }
        if let Some(timeout) = cli.timeout {
            config.timeout_seconds = timeout;
        }
        if let Some(log_path) = &cli.log_path {
            config.log_path = Some(log_path.clone());
        }
        config.display_logs = cli.display_logs;
        config.enable_tui = cli.enable_tui;
        config
    }
}

impl Default for RunnerConfig {
    fn default() -> (r: Self)
        ensures
            spec_is_default_runner_config(r),
    {
        Self::do_default()
    }
}

/// Configuration of the standalone runner: the subset of knobs it
/// exposes, propagated into a `RunnerConfig`.
#[derive(Debug)]
pub struct FuzzerRunnerConfig {
    pub seed: u64,
    pub rounds: u32,
    pub queries_per_round: u32,
    pub timeout_seconds: u64,
    pub log_path: Option<String>,
    pub max_column_count: u64,
    pub max_row_count: u64,
    pub max_expr_level: u32,
}

/// The standalone runner's defaults.
pub open spec fn spec_default_fuzzer_runner_config() -> FuzzerRunnerConfig {
    FuzzerRunnerConfig {
        seed: 42,
        rounds: 3,
        queries_per_round: 10,
        timeout_seconds: 30,
        log_path: None,
        max_column_count: 5,
        max_row_count: 100,
        max_expr_level: 3,
    }
}

impl Default for FuzzerRunnerConfig {
    fn default() -> (r: Self)
        ensures
            r == spec_default_fuzzer_runner_config(),
    {
        FuzzerRunnerConfig {
            seed: 42,
            rounds: 3,
            queries_per_round: 10,
            timeout_seconds: 30,
            log_path: None,
            max_column_count: 5,
            max_row_count: 100,
            max_expr_level: 3,
        }
    }
}

impl FuzzerRunnerConfig {
    /// Propagate the generation parameters into a `RunnerConfig` that
    /// otherwise holds the defaults.
    pub fn to_runner_config(&self) -> (r: RunnerConfig)
        ensures
            r.max_column_count == self.max_column_count,
            r.max_row_count == self.max_row_count,
            r.max_expr_level == self.max_expr_level,
            spec_is_default_runner_config(
                RunnerConfig {
                    max_column_count: 5,
                    max_row_count: 100,
                    max_expr_level: 3,
                    ..r
                },
            ),
    {
        RunnerConfig::new().with_max_column_count(self.max_column_count).with_max_row_count(
            self.max_row_count,
        ).with_max_expr_level(self.max_expr_level)
    }

    /// Overlay command-line options on a base configuration.
    /// Explicitly set options always win.
    pub fn from_cli(cli: &Cli, base: Self) -> (r: Self)
        ensures
            r.seed == if cli.seed is Some {
                cli.seed.unwrap()
            } else {
                base.seed
            },
            r.rounds == if cli.rounds is Some {
                cli.rounds.unwrap()
            } else {
                base.rounds
            },
            r.queries_per_round == if cli.queries_per_round is Some {
                cli.queries_per_round.unwrap()
            } else {
                base.queries_per_round
            },
            r.timeout_seconds == if cli.timeout is Some {
                cli.timeout.unwrap()
            } else {
                base.timeout_seconds
            },
            cli.log_path is Some ==> r.log_path is Some && r.log_path.unwrap()@
                == cli.log_path.unwrap()@,
            cli.log_path is None ==> r.log_path == base.log_path,
            r.max_column_count == base.max_column_count,
            r.max_row_count == base.max_row_count,
            r.max_expr_level == base.max_expr_level,
    {
        let mut config = base;
        if let Some(seed) = cli.seed {
            config.seed = seed;
        }
        if let Some(rounds) = cli.rounds {
            config.rounds = rounds;
        }
        if let Some(queries) = cli.queries_per_round {
            config.queries_per_round = queries;
        }
        if let Some(timeout) = cli.timeout {
            config.timeout_seconds = timeout;
        }
        if let Some(log_path) = &cli.log_path {
            config.log_path = Some(log_path.clone());
        }
        config
    }
}

} // verus!
