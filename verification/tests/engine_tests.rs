use cmdshell::ast::{CommandLineExpr, CommandOp};
use cmdshell::engine::{interpret, Action, Engine, Event, ExecError};
use cmdshell::interpret::{
    interpret_cmd_expr, interpret_cmdline_expr, interpret_job_expr, interpret_simplecmd_expr,
    JobPlan, ProcessSpec, Stream,
};
use cmdshell::lexer::Tokenizer;
use cmdshell::parser::Parse;
use cmdshell::signals::{ignored_by_shell, restored_in_child, ShellSignal, SignalDiscipline};

fn line(text: &str) -> Box<CommandLineExpr> {
    text.tokenize()
        .unwrap()
        .get_stream()
        .parse()
        .unwrap()
        .unwrap()
}

fn process(program: &str, args: &[&str]) -> ProcessSpec {
    ProcessSpec {
        program: String::from(program),
        args: args.iter().map(|a| String::from(*a)).collect(),
        redirect: None,
        piped_in: false,
        piped_out: false,
    }
}

fn first_job(expr: &CommandLineExpr) -> Vec<ProcessSpec> {
    match expr {
        CommandLineExpr::Single(job) => interpret_job_expr(job),
        CommandLineExpr::WithTrailingOp(job, _) => interpret_job_expr(job),
        CommandLineExpr::Chain(job, _, _) => interpret_job_expr(job),
    }
}

fn spawned(action: Action) -> ProcessSpec {
    match action {
        Action::Spawn(spec) => spec,
        other => panic!("a launch was expected, not {:?}", other),
    }
}

#[test]
fn simple_command_process() {
    let expr = cmdshell::ast::SimpleCmdExpr::Exe(String::from("ls"));
    assert_eq!(interpret_simplecmd_expr(&expr), process("ls", &[]));
    let expr = cmdshell::ast::SimpleCmdExpr::ExeWithArgs(
        String::from("ls"),
        vec![String::from("-l"), String::from("/")],
    );
    let spec = interpret_simplecmd_expr(&expr);
    assert_eq!(spec, process("ls", &["-l", "/"]));
    assert_eq!(spec.stdin(), Stream::Terminal);
    assert_eq!(spec.stdout(), Stream::Terminal);
}

#[test]
fn redirected_command_process() {
    let out = cmdshell::ast::CommandExpr::Redirected(
        Box::new(cmdshell::ast::SimpleCmdExpr::Exe(String::from("ls"))),
        CommandOp::RedirectOut,
        String::from("file"),
    );
    let spec = interpret_cmd_expr(&out);
    assert_eq!(spec.redirect, Some((CommandOp::RedirectOut, String::from("file"))));
    assert_eq!(spec.stdout(), Stream::File(String::from("file")));
    assert_eq!(spec.stdin(), Stream::Terminal);

    let input = cmdshell::ast::CommandExpr::Redirected(
        Box::new(cmdshell::ast::SimpleCmdExpr::Exe(String::from("cat"))),
        CommandOp::RedirectIn,
        String::from("file"),
    );
    let spec = interpret_cmd_expr(&input);
    assert_eq!(spec.stdin(), Stream::File(String::from("file")));
    assert_eq!(spec.stdout(), Stream::Terminal);

    let plain = cmdshell::ast::CommandExpr::Plain(Box::new(cmdshell::ast::SimpleCmdExpr::Exe(
        String::from("cat"),
    )));
    assert_eq!(interpret_cmd_expr(&plain), process("cat", &[]));
}

#[test]
fn pipeline_of_three() {
    let specs = first_job(&line("a | b | c"));
    assert_eq!(specs.len(), 3);
    assert_eq!(specs[0].program, "a");
    assert_eq!(specs[1].program, "b");
    assert_eq!(specs[2].program, "c");
    let pipes = specs.iter().filter(|s| s.piped_out).count();
    assert_eq!(pipes, 2);
    assert_eq!(specs.iter().filter(|s| s.piped_in).count(), 2);
    assert_eq!(specs[0].stdin(), Stream::Terminal);
    assert_eq!(specs[0].stdout(), Stream::Pipe);
    assert_eq!(specs[1].stdin(), Stream::Pipe);
    assert_eq!(specs[1].stdout(), Stream::Pipe);
    assert_eq!(specs[2].stdin(), Stream::Pipe);
    assert_eq!(specs[2].stdout(), Stream::Terminal);
}

#[test]
fn pipeline_of_three_is_launched_in_order() {
    let mut engine = interpret(&line("a | b | c"));
    assert_eq!(spawned(engine.pending()).program, "a");
    assert_eq!(spawned(engine.step(Event::Spawned(11))).program, "b");
    assert_eq!(spawned(engine.step(Event::Spawned(12))).program, "c");
    assert_eq!(engine.step(Event::Spawned(13)), Action::Wait(11));
    assert_eq!(engine.step(Event::Waited(true)), Action::Wait(12));
    assert_eq!(engine.step(Event::Waited(true)), Action::Wait(13));
    assert_eq!(engine.step(Event::Waited(true)), Action::Finish(Ok(())));
    assert_eq!(engine.step(Event::Waited(true)), Action::Finish(Ok(())));
    assert_eq!(engine.pending(), Action::Finish(Ok(())));
}

#[test]
fn pipe_overrides_redirection() {
    let specs = first_job(&line("a > f | b < g"));
    assert_eq!(specs.len(), 2);
    assert_eq!(specs[0].redirect, Some((CommandOp::RedirectOut, String::from("f"))));
    assert_eq!(specs[0].stdout(), Stream::Pipe);
    assert_eq!(specs[1].redirect, Some((CommandOp::RedirectIn, String::from("g"))));
    assert_eq!(specs[1].stdin(), Stream::Pipe);
    assert_eq!(specs[1].stdout(), Stream::Terminal);
}

#[test]
fn redirections_at_the_ends_of_a_pipeline() {
    let specs = first_job(&line("a < in | b > out"));
    assert_eq!(specs[0].stdin(), Stream::File(String::from("in")));
    assert_eq!(specs[0].stdout(), Stream::Pipe);
    assert_eq!(specs[1].stdin(), Stream::Pipe);
    assert_eq!(specs[1].stdout(), Stream::File(String::from("out")));
}

#[test]
fn plan_of_a_line() {
    let plans = interpret_cmdline_expr(&line("sleep 1; echo done"));
    assert_eq!(
        plans,
        vec![
            JobPlan { processes: vec![process("sleep", &["1"])], wait: true },
            JobPlan { processes: vec![process("echo", &["done"])], wait: true },
        ]
    );
    let plans = interpret_cmdline_expr(&line("sleep 1 & echo hi ;"));
    assert_eq!(
        plans,
        vec![
            JobPlan { processes: vec![process("sleep", &["1"])], wait: false },
            JobPlan { processes: vec![process("echo", &["hi"])], wait: true },
        ]
    );
    let plans = interpret_cmdline_expr(&line("sleep 1 &"));
    assert_eq!(
        plans,
        vec![JobPlan { processes: vec![process("sleep", &["1"])], wait: false }]
    );
}

#[test]
fn sequence_waits_before_the_next_job() {
    let mut engine = interpret(&line("sleep 1; echo done"));
    assert_eq!(engine.pending(), Action::Spawn(process("sleep", &["1"])));
    assert_eq!(engine.step(Event::Spawned(7)), Action::Wait(7));
    assert_eq!(engine.step(Event::Spawned(8)), Action::Wait(7));
    assert_eq!(engine.pending(), Action::Wait(7));
    assert_eq!(
        engine.step(Event::Waited(true)),
        Action::Spawn(process("echo", &["done"]))
    );
    assert_eq!(engine.step(Event::Spawned(9)), Action::Wait(9));
    assert_eq!(engine.step(Event::Waited(true)), Action::Finish(Ok(())));
}

#[test]
fn background_job_is_not_waited_for() {
    let mut engine = interpret(&line("sleep 1 &"));
    assert_eq!(engine.pending(), Action::Spawn(process("sleep", &["1"])));
    assert_eq!(engine.step(Event::Spawned(7)), Action::Finish(Ok(())));

    let mut engine = interpret(&line("sleep 1 & echo hi"));
    assert_eq!(engine.pending(), Action::Spawn(process("sleep", &["1"])));
    assert_eq!(
        engine.step(Event::Spawned(7)),
        Action::Spawn(process("echo", &["hi"]))
    );
    assert_eq!(engine.step(Event::Spawned(8)), Action::Wait(8));
    assert_eq!(engine.step(Event::Waited(true)), Action::Finish(Ok(())));
}

#[test]
fn failed_launch_ends_the_job_only() {
    let mut engine = interpret(&line("a | b ; c"));
    assert_eq!(spawned(engine.pending()).program, "a");
    assert_eq!(spawned(engine.step(Event::Spawned(1))).program, "b");
    assert_eq!(
        engine.step(Event::Failed(ExecError::Spawn)),
        Action::Spawn(process("c", &[]))
    );
    assert_eq!(engine.step(Event::Spawned(3)), Action::Wait(3));
    assert_eq!(
        engine.step(Event::Waited(true)),
        Action::Finish(Err(ExecError::Spawn))
    );
}

#[test]
fn failed_redirection_is_reported() {
    let mut engine = interpret(&line("cat < missing"));
    let spec = spawned(engine.pending());
    assert_eq!(spec.stdin(), Stream::File(String::from("missing")));
    assert_eq!(
        engine.step(Event::Failed(ExecError::Io)),
        Action::Finish(Err(ExecError::Io))
    );
}

#[test]
fn failed_wait_goes_on_and_is_reported() {
    let mut engine = interpret(&line("a | b ; c"));
    engine.step(Event::Spawned(1));
    assert_eq!(engine.step(Event::Spawned(2)), Action::Wait(1));
    assert_eq!(engine.step(Event::Waited(false)), Action::Wait(2));
    assert_eq!(
        engine.step(Event::Waited(true)),
        Action::Spawn(process("c", &[]))
    );
    assert_eq!(engine.step(Event::Failed(ExecError::Spawn)), Action::Finish(Err(ExecError::Wait)));
}

#[test]
fn events_out_of_turn_change_nothing() {
    let mut engine = Engine::new(&line("a"));
    assert_eq!(engine.step(Event::Waited(true)), Action::Spawn(process("a", &[])));
    assert_eq!(engine.step(Event::Spawned(4)), Action::Wait(4));
    assert_eq!(engine.step(Event::Failed(ExecError::Io)), Action::Wait(4));
    assert_eq!(engine.step(Event::Waited(true)), Action::Finish(Ok(())));
    assert_eq!(engine.step(Event::Spawned(5)), Action::Finish(Ok(())));
}

#[test]
fn signal_discipline() {
    assert_eq!(
        ignored_by_shell(),
        [ShellSignal::Stop, ShellSignal::Quit, ShellSignal::Interrupt]
    );
    assert!(restored_in_child(ShellSignal::Interrupt));
    assert!(!restored_in_child(ShellSignal::Quit));
    assert!(!restored_in_child(ShellSignal::Stop));

    let mut discipline: SignalDiscipline<u8> = SignalDiscipline::new();
    assert_eq!(discipline.prepare_child(), None);
    discipline.enter_shell_mode(3);
    assert_eq!(discipline.prepare_child(), Some(&3));
}
