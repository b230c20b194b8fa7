use heinzelmann::actor::{
    respond, Evaluation, Preflight, ReplCommand, ReplResponse, Step, VMMessage, Work,
    DEFAULT_EVENT_HOOK, HOOK_DEFINITIONS,
};
use heinzelmann::timer::TimedEvent;
use rumqttc::{Client, MqttOptions};
use std::sync::mpsc::channel;
use steel::steel_vm::engine::Engine;
use steel::SteelVal;

fn bus_ready() -> VMMessage {
    let (client, _connection) = Client::new(MqttOptions::new("test", "localhost", 1883), 10);
    VMMessage::MqttConnect(client)
}

fn timers_ready() -> VMMessage {
    let (tx, _rx) = channel::<TimedEvent>();
    VMMessage::TimersReady(tx)
}

fn command(code: &str) -> VMMessage {
    let (cmd, _rx) = ReplCommand::create(code.to_string());
    VMMessage::Command(cmd)
}

fn launches(state: &mut Preflight, msgs: Vec<VMMessage>) -> usize {
    let mut n = 0;
    for msg in msgs {
        if state.receive(msg).run_program {
            n += 1;
        }
    }
    n
}

fn evaluate(vm: &mut Engine, code: &str) -> Evaluation {
    match vm.compile_and_run_raw_program(code.to_string()) {
        Ok(values) => match values.last() {
            None => Evaluation::Nothing,
            Some(SteelVal::Void) => Evaluation::Void,
            Some(SteelVal::StringV(s)) => Evaluation::Text(s.to_string()),
            Some(other) => {
                match vm.call_function_by_name_with_args("to-string", vec![other.clone()]) {
                    Ok(SteelVal::StringV(s)) => Evaluation::Other(s.to_string()),
                    _ => panic!("to-string gave no string"),
                }
            }
        },
        Err(e) => Evaluation::Failed(e.to_string()),
    }
}

#[test]
fn round_trip_of_a_sum() {
    let mut vm = Engine::new();
    let (cmd, rx) = ReplCommand::create("(+ 1 2)".to_string());
    let mut state = Preflight::new();
    let step = state.receive(VMMessage::Command(cmd));
    assert!(!step.run_program);
    match step.work {
        Work::Evaluate(cmd) => {
            let outcome = evaluate(&mut vm, &cmd.cmd);
            assert!(cmd.answer(outcome).is_ok());
        }
        _ => panic!("a command is evaluated"),
    }
    match rx.recv().unwrap() {
        ReplResponse::Return(s) => assert_eq!(s, "3"),
        other => panic!("unexpected response {:?}", other),
    }
}

#[test]
fn evaluations_of_every_kind_get_their_response() {
    let mut vm = Engine::new();
    assert!(matches!(respond(evaluate(&mut vm, "(define x 1)")), ReplResponse::Empty));
    match respond(evaluate(&mut vm, "\"hello\"")) {
        ReplResponse::Return(s) => assert_eq!(s, "hello"),
        other => panic!("unexpected response {:?}", other),
    }
    match respond(evaluate(&mut vm, "(list 1 2)")) {
        ReplResponse::Return(s) => assert_eq!(s, "(1 2)"),
        other => panic!("unexpected response {:?}", other),
    }
    assert!(matches!(respond(evaluate(&mut vm, "(undefined-function 1)")), ReplResponse::Error(_)));
    assert!(matches!(respond(evaluate(&mut vm, "(+ 1")), ReplResponse::Error(_)));
    match respond(evaluate(&mut vm, "(+ x 1)")) {
        ReplResponse::Return(s) => assert_eq!(s, "2"),
        other => panic!("unexpected response {:?}", other),
    }
}

#[test]
fn respond_maps_each_outcome() {
    assert!(matches!(respond(Evaluation::Nothing), ReplResponse::Empty));
    assert!(matches!(respond(Evaluation::Void), ReplResponse::Empty));
    assert!(matches!(respond(Evaluation::Text("a".to_string())), ReplResponse::Return(s) if s == "a"));
    assert!(matches!(respond(Evaluation::Other("3".to_string())), ReplResponse::Return(s) if s == "3"));
    assert!(matches!(respond(Evaluation::Failed("no".to_string())), ReplResponse::Error(s) if s == "no"));
}

#[test]
fn program_runs_once_bus_first() {
    let mut state = Preflight::new();
    assert_eq!(state, Preflight { mqtt: false, timers: false, program_run: false });
    assert!(!state.receive(bus_ready()).run_program);
    assert_eq!(state, Preflight { mqtt: true, timers: false, program_run: false });
    assert!(state.receive(timers_ready()).run_program);
    assert_eq!(state, Preflight { mqtt: true, timers: true, program_run: true });
    assert!(!state.receive(bus_ready()).run_program);
    assert!(!state.receive(timers_ready()).run_program);
    assert!(!state.receive(command("1")).run_program);
    assert_eq!(state, Preflight { mqtt: true, timers: true, program_run: true });
}

#[test]
fn program_runs_once_timers_first() {
    let mut state = Preflight::new();
    let n = launches(
        &mut state,
        vec![timers_ready(), command("1"), timers_ready(), bus_ready(), bus_ready(), command("2")],
    );
    assert_eq!(n, 1);
    assert!(state.program_run);
}

#[test]
fn program_waits_for_both_subsystems() {
    let mut state = Preflight::new();
    assert_eq!(launches(&mut state, vec![bus_ready(), bus_ready(), command("1")]), 0);
    assert!(!state.program_run);
    let mut state = Preflight::new();
    assert_eq!(launches(&mut state, vec![command("1"), timers_ready(), command("2")]), 0);
    assert!(!state.program_run);
}

#[test]
fn commands_are_evaluated_before_anything_is_ready() {
    let mut state = Preflight::new();
    let Step { work, run_program } = state.receive(command("(+ 1 2)"));
    assert!(!run_program);
    assert!(matches!(work, Work::Evaluate(cmd) if cmd.cmd == "(+ 1 2)"));
    assert_eq!(state, Preflight::new());
}

#[test]
fn readiness_messages_hand_their_load_through() {
    let mut state = Preflight::new();
    assert!(matches!(state.receive(bus_ready()).work, Work::ConnectBus(_)));
    let (tx, rx) = channel::<TimedEvent>();
    match state.receive(VMMessage::TimersReady(tx)).work {
        Work::ConnectTimers(tx) => {
            tx.send(TimedEvent::new((1, 2), "x".to_string())).unwrap();
            assert_eq!(rx.recv().unwrap().time, (1, 2));
        }
        _ => panic!("the channel is handed through"),
    }
}

#[test]
fn commands_are_evaluated_in_order_of_arrival() {
    let (tx, rx) = channel::<VMMessage>();
    let console = tx.clone();
    let timer = tx.clone();
    let remote = tx;
    console.send(command("C1")).unwrap();
    timer.send(bus_ready()).unwrap();
    timer.send(command("C2")).unwrap();
    remote.send(timers_ready()).unwrap();
    remote.send(command("C3")).unwrap();
    drop((console, timer, remote));
    let mut state = Preflight::new();
    let mut seen = Vec::new();
    for msg in rx {
        let step = state.receive(msg);
        if let Work::Evaluate(cmd) = step.work {
            seen.push(cmd.cmd);
        }
        if step.run_program {
            seen.push("program".to_string());
        }
    }
    assert_eq!(seen, vec!["C1", "C2", "program", "C3"]);
}

#[test]
fn answer_hands_back_what_nobody_waits_for() {
    let (cmd, rx) = ReplCommand::create("1".to_string());
    assert_eq!(cmd.cmd, "1");
    assert!(cmd.answer(Evaluation::Void).is_ok());
    assert!(matches!(rx.recv().unwrap(), ReplResponse::Empty));
    assert!(rx.recv().is_err());
    let (cmd, rx) = ReplCommand::create("2".to_string());
    drop(rx);
    assert!(matches!(cmd.answer(Evaluation::Void), Err(ReplResponse::Empty)));
    let (cmd, rx) = ReplCommand::create("3".to_string());
    drop(rx);
    let back = cmd.answer(Evaluation::Other("3".to_string()));
    assert!(matches!(back, Err(ReplResponse::Return(s)) if s == "3"));
}

#[test]
fn new_command_answers_on_the_given_channel() {
    let (tx, rx) = channel::<ReplResponse>();
    let cmd = ReplCommand::new("(f)".to_string(), tx);
    assert_eq!(cmd.cmd, "(f)");
    assert!(cmd.answer(Evaluation::Failed("oops".to_string())).is_ok());
    assert!(matches!(rx.recv().unwrap(), ReplResponse::Error(s) if s == "oops"));
}

#[test]
fn default_hook_is_a_function_of_topic_and_message() {
    let mut vm = Engine::new();
    let values = vm.run(DEFAULT_EVENT_HOOK).unwrap();
    let hook = values.last().unwrap().clone();
    vm.register_value("hook", hook);
    assert!(vm.run("(hook \"home/light\" \"on\")").is_ok());
    assert!(vm.run("(hook \"home/light\")").is_err());
}

#[test]
fn hook_definitions_name_the_four_entry_points() {
    for name in ["handle-event", "handle-timer", "register-event!", "register-timer!"] {
        assert!(HOOK_DEFINITIONS.contains(&format!("(define ({} ", name)), "{}", name);
    }
}
