//! End-to-end scenarios at the library boundary: configuration resolution,
//! matcher compilation, batch filtering and run sequencing, with the
//! filesystem watching and process spawning replaced by recorded traces.

use watchrun::config::{Args, Config};
use watchrun::debounce::run_trace;
use watchrun::globs::{compile, first_relevant};
use watchrun::runner::RunState;

fn no_args() -> Args {
    Args {
        pattern: vec![],
        dir: None,
        debounce: None,
        clear: false,
        ignore: vec![],
        command: vec![],
    }
}

#[test]
fn scenario_txt_watch_with_tmp_ignore() {
    // Watch root ./proj, pattern **/*.txt, ignore **/tmp/**.
    let mut args = no_args();
    args.dir = Some("./proj".to_string());
    args.pattern = vec!["**/*.txt".to_string()];
    args.ignore = vec!["**/tmp/**".to_string()];
    args.command = vec!["make".to_string()];
    let eff = watchrun::config::resolve(&args, &None).unwrap();
    assert_eq!(eff.dir, "./proj");
    let watch = compile(&eff.patterns).unwrap();
    let ignore = compile(&eff.ignore).unwrap();

    // Creating proj/tmp/a.txt triggers no run.
    let batch = vec!["proj/tmp/a.txt".to_string()];
    assert_eq!(first_relevant(&batch, &watch, &ignore), None);

    // Creating proj/notes.txt triggers exactly one run.
    let batch = vec!["proj/notes.txt".to_string()];
    let mut runs = 0;
    if let Some(i) = first_relevant(&batch, &watch, &ignore) {
        assert_eq!(batch[i], "proj/notes.txt");
        runs += 1;
    }
    assert_eq!(runs, 1);
}

#[test]
fn scenario_no_config_no_pattern_echo() {
    // No config file, no --pattern, command `echo hi`: any change under the
    // default watch root is relevant and triggers one run of the single
    // command.
    let mut args = no_args();
    args.command = vec!["echo hi".to_string()];
    let eff = watchrun::config::resolve(&args, &None).unwrap();
    assert_eq!(eff.dir, ".");
    assert_eq!(eff.patterns, vec!["**/*"]);
    assert_eq!(eff.commands, vec!["echo hi"]);

    let watch = compile(&eff.patterns).unwrap();
    let ignore = compile(&eff.ignore).unwrap();
    let batch = vec!["some/changed/file.c".to_string()];
    assert!(first_relevant(&batch, &watch, &ignore).is_some());

    // The single command runs and succeeds.
    let mut st = RunState::start(eff.commands.len());
    assert_eq!(st.current(), Some(0));
    assert_eq!(eff.commands[0], "echo hi");
    st.record(true);
    assert_eq!(st.current(), None);
}

#[test]
fn scenario_build_fails_test_never_runs() {
    // The config file specifies commands ["build", "test"]; build fails;
    // the run reports build's failure and never reaches test.
    let file = Some(Config {
        dir: ".".to_string(),
        patterns: vec![],
        commands: vec!["build".to_string(), "test".to_string()],
        command: None,
        debounce: 500,
        clear: false,
        ignore: vec![],
    });
    let eff = watchrun::config::resolve(&no_args(), &file).unwrap();
    assert_eq!(eff.commands, vec!["build", "test"]);

    let mut st = RunState::start(eff.commands.len());
    let mut executed: Vec<String> = Vec::new();
    while let Some(i) = st.current() {
        executed.push(eff.commands[i].clone());
        // build fails, anything else would succeed
        st.record(eff.commands[i] != "build");
    }
    assert_eq!(executed, vec!["build"]);
}

#[test]
fn scenario_burst_then_quiet_then_burst() {
    // Two separated bursts of relevant changes produce exactly two runs.
    let events = vec![
        (0u64, "src/a.rs".to_string()),
        (10u64, "src/b.rs".to_string()),
        (900u64, "src/c.rs".to_string()),
    ];
    let batches = run_trace(500, &events);
    assert_eq!(batches.len(), 2);

    let watch = compile(&vec!["**/*.rs".to_string()]).unwrap();
    let ignore = compile(&vec![]).unwrap();
    let mut runs = 0;
    for batch in &batches {
        if first_relevant(batch, &watch, &ignore).is_some() {
            runs += 1;
        }
    }
    assert_eq!(runs, 2);
}

#[test]
fn scenario_builtin_ignores_suppress_target_noise() {
    // With the catch-all watch pattern, changes under target/ or .git/ do
    // not trigger a run; the config file itself is ignored too.
    let mut args = no_args();
    args.command = vec!["make".to_string()];
    let eff = watchrun::config::resolve(&args, &None).unwrap();
    let watch = compile(&eff.patterns).unwrap();
    let ignore = compile(&eff.ignore).unwrap();

    let batch = vec![
        "proj/target/debug/foo".to_string(),
        "proj/.git/objects/ab".to_string(),
        "proj/node_modules/x/y.js".to_string(),
        "proj/.watchrun.toml".to_string(),
    ];
    assert_eq!(first_relevant(&batch, &watch, &ignore), None);

    let batch = vec!["proj/src/main.c".to_string()];
    assert!(first_relevant(&batch, &watch, &ignore).is_some());
}
