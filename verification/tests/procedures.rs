use rockchip_phy::analog::{reinit_analog, reinit_analog_for, reinit_writes};
use rockchip_phy::bus::{
    GenericProc, IoError, LinkCondition, OperState, Polarity, RegWrite, Request,
};
use rockchip_phy::config::{configure, configure_writes};
use rockchip_phy::driver::{config_aneg, config_init, soft_reset};
use rockchip_phy::link::{link_change_notify, needs_reinit};
use rockchip_phy::polarity::{resolve_polarity, resolve_polarity_for};
use rockchip_phy::power::{resume, suspend};
use rockchip_phy::step::{issue_writes, AfterCall, AfterRead, AfterWrite, Caller, Step};
use rockchip_phy::test_mode::{enter, enter_writes, exit, exit_writes};

/// A register file that records what is asked of it and fails on demand.
struct Phy {
    regs: [u16; 32],
    asked: Vec<Request>,
    failures: Vec<(usize, i32)>,
}

impl Phy {
    fn new() -> Phy {
        Phy { regs: [0; 32], asked: Vec::new(), failures: Vec::new() }
    }

    fn with_ctrl(ctrl: u16) -> Phy {
        let mut phy = Phy::new();
        phy.regs[17] = ctrl;
        phy
    }

    /// The operation at position `at`, counting every request, fails.
    fn failing(mut self, at: usize, errno: i32) -> Phy {
        self.failures.push((at, errno));
        self
    }

    fn perform(&mut self, request: Request) -> Result<u16, IoError> {
        let position = self.asked.len();
        self.asked.push(request);
        for (at, errno) in self.failures.iter() {
            if *at == position {
                return Err(IoError { errno: *errno });
            }
        }
        match request {
            Request::Read { addr } => Ok(self.regs[addr as usize]),
            Request::Write { addr, value } => {
                self.regs[addr as usize] = value;
                Ok(0)
            }
            Request::Call { .. } => Ok(0),
        }
    }
}

#[derive(Debug, PartialEq)]
enum End {
    Returned(Result<(), IoError>),
    Logged(IoError),
}

/// Performs what the procedure asks for until it ends.
fn drive(first: Step, phy: &mut Phy) -> End {
    let mut step = first;
    loop {
        step = match step {
            Step::Read { addr, then } => {
                let outcome = phy.perform(Request::Read { addr });
                then.proceed(outcome)
            }
            Step::Write { addr, value, then } => {
                let outcome = phy.perform(Request::Write { addr, value });
                then.proceed(outcome.map(|_| ()))
            }
            Step::Call { procedure, then } => {
                let outcome = phy.perform(Request::Call { procedure });
                then.proceed(outcome.map(|_| ()))
            }
            Step::Finished(result) => return End::Returned(result),
            Step::Suppressed(error) => return End::Logged(error),
        };
    }
}

fn write(addr: u16, value: u16) -> Request {
    Request::Write { addr, value }
}

fn analog_requests() -> Vec<Request> {
    vec![
        write(20, 0x400),
        write(20, 0x0),
        write(20, 0x400),
        write(23, 0xB),
        write(20, 0x4418),
        write(20, 0x0),
    ]
}

#[test]
fn enter_writes_enable_disable_enable() {
    assert_eq!(
        enter_writes(),
        vec![
            RegWrite { addr: 20, value: 0x400 },
            RegWrite { addr: 20, value: 0x0 },
            RegWrite { addr: 20, value: 0x400 },
        ]
    );
    let mut phy = Phy::new();
    assert_eq!(drive(enter(), &mut phy), End::Returned(Ok(())));
    assert_eq!(phy.asked, vec![write(20, 0x400), write(20, 0x0), write(20, 0x400)]);
    assert_eq!(phy.regs[20], 0x400);
}

#[test]
fn enter_stops_at_the_write_that_fails() {
    for at in 0..3 {
        let mut phy = Phy::new().failing(at, -110);
        assert_eq!(drive(enter(), &mut phy), End::Returned(Err(IoError { errno: -110 })));
        assert_eq!(phy.asked.len(), at + 1);
    }
}

#[test]
fn enter_can_be_repeated() {
    let mut phy = Phy::new();
    assert_eq!(drive(enter(), &mut phy), End::Returned(Ok(())));
    assert_eq!(drive(enter(), &mut phy), End::Returned(Ok(())));
    assert_eq!(phy.asked.len(), 6);
    assert_eq!(phy.regs[20], 0x400);
}

#[test]
fn exit_writes_disable() {
    assert_eq!(exit_writes(), vec![RegWrite { addr: 20, value: 0x0 }]);
    let mut phy = Phy::new();
    phy.regs[20] = 0x400;
    assert_eq!(drive(exit(), &mut phy), End::Returned(Ok(())));
    assert_eq!(phy.asked, vec![write(20, 0x0)]);
    assert_eq!(phy.regs[20], 0);
}

#[test]
fn exit_returns_the_failure_of_its_write() {
    let mut phy = Phy::new().failing(0, -5);
    assert_eq!(drive(exit(), &mut phy), End::Returned(Err(IoError { errno: -5 })));
    assert_eq!(phy.asked, vec![write(20, 0x0)]);
}

#[test]
fn reinit_writes_are_the_six_in_order() {
    assert_eq!(
        reinit_writes(),
        vec![
            RegWrite { addr: 20, value: 0x400 },
            RegWrite { addr: 20, value: 0x0 },
            RegWrite { addr: 20, value: 0x400 },
            RegWrite { addr: 23, value: 0xB },
            RegWrite { addr: 20, value: 0x4418 },
            RegWrite { addr: 20, value: 0x0 },
        ]
    );
}

#[test]
fn reinit_analog_issues_six_writes_in_order() {
    let mut phy = Phy::new();
    assert_eq!(drive(reinit_analog(), &mut phy), End::Returned(Ok(())));
    assert_eq!(phy.asked, analog_requests());
    assert_eq!(phy.regs[23], 0xB);
    assert_eq!(phy.regs[20], 0x0);
}

#[test]
fn reinit_analog_aborts_at_the_first_failing_write() {
    for at in 0..6 {
        let mut phy = Phy::new().failing(at, -(at as i32) - 1);
        let end = drive(reinit_analog(), &mut phy);
        assert_eq!(end, End::Returned(Err(IoError { errno: -(at as i32) - 1 })));
        assert_eq!(phy.asked, analog_requests()[..at + 1].to_vec());
    }
}

#[test]
fn reinit_analog_leaves_test_mode_open_when_it_fails_inside() {
    let mut phy = Phy::new().failing(4, -5);
    assert_eq!(drive(reinit_analog(), &mut phy), End::Returned(Err(IoError { errno: -5 })));
    assert_eq!(phy.asked.len(), 5);
    assert_eq!(phy.regs[20], 0x400);
}

#[test]
fn reinit_analog_ignores_a_later_failure_once_it_has_failed() {
    let mut phy = Phy::new().failing(1, -5).failing(3, -6);
    assert_eq!(drive(reinit_analog(), &mut phy), End::Returned(Err(IoError { errno: -5 })));
    assert_eq!(phy.asked.len(), 2);
}

#[test]
fn configure_clears_auto_mdix_and_sets_up_the_analog_bank() {
    let mut phy = Phy::with_ctrl(0b1100_0000);
    assert_eq!(drive(configure(), &mut phy), End::Returned(Ok(())));
    let mut expected = vec![Request::Read { addr: 17 }, write(17, 0b0100_0000)];
    expected.extend(analog_requests());
    assert_eq!(phy.asked, expected);
    assert_eq!(phy.regs[17], 0b0100_0000);
}

#[test]
fn configure_changes_the_control_register_once() {
    let mut phy = Phy::with_ctrl(0b1100_0000);
    assert_eq!(drive(configure(), &mut phy), End::Returned(Ok(())));
    let to_ctrl: Vec<&Request> = phy
        .asked
        .iter()
        .filter(|request| matches!(request, Request::Write { addr: 17, .. }))
        .collect();
    assert_eq!(to_ctrl, vec![&write(17, 0b0100_0000)]);
}

#[test]
fn configure_writes_back_even_when_the_bit_is_clear() {
    let mut phy = Phy::with_ctrl(0b0100_0000);
    assert_eq!(drive(configure(), &mut phy), End::Returned(Ok(())));
    assert_eq!(phy.asked[1], write(17, 0b0100_0000));
    assert_eq!(phy.asked.len(), 8);
    assert_eq!(phy.regs[17], 0b0100_0000);
}

#[test]
fn configure_clears_the_bit_whatever_the_register_held() {
    for ctrl in [0u16, 0x80, 0xC0, 0x1234, 0x12B4, 0xFFFF, 0xFF7F] {
        let mut phy = Phy::with_ctrl(ctrl);
        assert_eq!(drive(configure(), &mut phy), End::Returned(Ok(())));
        assert_eq!(phy.regs[17], ctrl & !0x80);
        assert_eq!(phy.regs[17] & 0x80, 0);
    }
}

#[test]
fn configure_writes_match_the_plan() {
    let mut plan = vec![RegWrite { addr: 17, value: 0x1234 }];
    plan.extend(reinit_writes());
    assert_eq!(configure_writes(0x12B4), plan);
}

#[test]
fn configure_returns_the_failure_of_the_read() {
    let mut phy = Phy::with_ctrl(0b1100_0000).failing(0, -19);
    assert_eq!(drive(configure(), &mut phy), End::Returned(Err(IoError { errno: -19 })));
    assert_eq!(phy.asked, vec![Request::Read { addr: 17 }]);
    assert_eq!(phy.regs[17], 0b1100_0000);
}

#[test]
fn configure_stops_at_the_write_that_fails() {
    for at in 1..8 {
        let mut phy = Phy::with_ctrl(0b1100_0000).failing(at, -5);
        assert_eq!(drive(configure(), &mut phy), End::Returned(Err(IoError { errno: -5 })));
        assert_eq!(phy.asked.len(), at + 1);
    }
}

#[test]
fn config_init_is_configure() {
    assert_eq!(config_init(), configure());
    let mut phy = Phy::with_ctrl(0b1000_0001);
    assert_eq!(drive(config_init(), &mut phy), End::Returned(Ok(())));
    assert_eq!(phy.regs[17], 0b0000_0001);
    assert_eq!(phy.asked.len(), 8);
}

#[test]
fn resolve_polarity_writes_mdix_when_the_register_is_clear() {
    let mut phy = Phy::with_ctrl(0b0000_0000);
    assert_eq!(drive(resolve_polarity(Polarity::MdiX), &mut phy), End::Returned(Ok(())));
    assert_eq!(phy.asked, vec![Request::Read { addr: 17 }, write(17, 0b0100_0000)]);
    assert_eq!(phy.regs[17], 0b0100_0000);
}

#[test]
fn resolve_polarity_skips_the_write_when_mdix_is_already_forced() {
    let mut phy = Phy::with_ctrl(0b0100_0000);
    assert_eq!(drive(resolve_polarity(Polarity::MdiX), &mut phy), End::Returned(Ok(())));
    assert_eq!(phy.asked, vec![Request::Read { addr: 17 }]);
    assert_eq!(phy.regs[17], 0b0100_0000);
}

#[test]
fn resolve_polarity_clears_mdix_for_mdi() {
    let mut phy = Phy::with_ctrl(0b0100_0011);
    assert_eq!(drive(resolve_polarity(Polarity::Mdi), &mut phy), End::Returned(Ok(())));
    assert_eq!(phy.asked, vec![Request::Read { addr: 17 }, write(17, 0b0000_0011)]);
}

#[test]
fn resolve_polarity_skips_the_write_when_mdi_is_already_forced() {
    let mut phy = Phy::with_ctrl(0b0000_0011);
    assert_eq!(drive(resolve_polarity(Polarity::Mdi), &mut phy), End::Returned(Ok(())));
    assert_eq!(phy.asked, vec![Request::Read { addr: 17 }]);
}

#[test]
fn resolve_polarity_writes_nothing_for_auto_and_invalid() {
    for mode in [Polarity::Auto, Polarity::Invalid] {
        for ctrl in [0u16, 0x40, 0x80, 0xC0] {
            let mut phy = Phy::with_ctrl(ctrl);
            assert_eq!(drive(resolve_polarity(mode), &mut phy), End::Returned(Ok(())));
            assert_eq!(phy.asked, vec![Request::Read { addr: 17 }]);
            assert_eq!(phy.regs[17], ctrl);
        }
    }
}

#[test]
fn resolve_polarity_returns_the_failure_of_the_read() {
    let mut phy = Phy::with_ctrl(0).failing(0, -110);
    let end = drive(resolve_polarity(Polarity::MdiX), &mut phy);
    assert_eq!(end, End::Returned(Err(IoError { errno: -110 })));
    assert_eq!(phy.asked, vec![Request::Read { addr: 17 }]);
}

#[test]
fn resolve_polarity_returns_the_failure_of_the_write() {
    let mut phy = Phy::with_ctrl(0).failing(1, -5);
    let end = drive(resolve_polarity(Polarity::MdiX), &mut phy);
    assert_eq!(end, End::Returned(Err(IoError { errno: -5 })));
    assert_eq!(phy.asked.len(), 2);
    assert_eq!(phy.regs[17], 0);
}

#[test]
fn needs_reinit_only_when_running_at_100() {
    assert!(needs_reinit(LinkCondition { state: OperState::Running, speed: 100 }));
    assert!(!needs_reinit(LinkCondition { state: OperState::Running, speed: 10 }));
    assert!(!needs_reinit(LinkCondition { state: OperState::Running, speed: 1000 }));
    assert!(!needs_reinit(LinkCondition { state: OperState::Running, speed: 0 }));
    assert!(!needs_reinit(LinkCondition { state: OperState::Other, speed: 100 }));
    assert!(!needs_reinit(LinkCondition { state: OperState::Other, speed: 10 }));
}

#[test]
fn link_change_notify_reinitializes_when_running_at_100() {
    let mut phy = Phy::new();
    let link = LinkCondition { state: OperState::Running, speed: 100 };
    assert_eq!(drive(link_change_notify(link), &mut phy), End::Returned(Ok(())));
    assert_eq!(phy.asked, analog_requests());
}

#[test]
fn link_change_notify_does_nothing_otherwise() {
    let quiet = [
        LinkCondition { state: OperState::Running, speed: 10 },
        LinkCondition { state: OperState::Running, speed: 1000 },
        LinkCondition { state: OperState::Running, speed: 99 },
        LinkCondition { state: OperState::Running, speed: 101 },
        LinkCondition { state: OperState::Other, speed: 100 },
        LinkCondition { state: OperState::Other, speed: 10 },
    ];
    for link in quiet {
        let mut phy = Phy::new();
        assert_eq!(link_change_notify(link), Step::Finished(Ok(())));
        assert_eq!(drive(link_change_notify(link), &mut phy), End::Returned(Ok(())));
        assert!(phy.asked.is_empty());
    }
}

#[test]
fn link_change_notify_repeats_the_full_sequence_each_time() {
    let mut phy = Phy::new();
    let link = LinkCondition { state: OperState::Running, speed: 100 };
    for round in 1..4 {
        assert_eq!(drive(link_change_notify(link), &mut phy), End::Returned(Ok(())));
        assert_eq!(phy.asked.len(), 6 * round);
        assert_eq!(phy.asked[6 * (round - 1)..].to_vec(), analog_requests());
    }
}

#[test]
fn link_change_notify_swallows_a_failure() {
    for at in 0..6 {
        let mut phy = Phy::new().failing(at, -5);
        let link = LinkCondition { state: OperState::Running, speed: 100 };
        let end = drive(link_change_notify(link), &mut phy);
        assert_eq!(end, End::Logged(IoError { errno: -5 }));
        assert_eq!(phy.asked, analog_requests()[..at + 1].to_vec());
    }
}

#[test]
fn suspend_returns_what_the_framework_returns() {
    let mut phy = Phy::new();
    assert_eq!(drive(suspend(), &mut phy), End::Returned(Ok(())));
    assert_eq!(phy.asked, vec![Request::Call { procedure: GenericProc::Suspend }]);

    let mut phy = Phy::new().failing(0, -16);
    assert_eq!(drive(suspend(), &mut phy), End::Returned(Err(IoError { errno: -16 })));
    assert_eq!(phy.asked, vec![Request::Call { procedure: GenericProc::Suspend }]);
}

#[test]
fn soft_reset_returns_what_the_framework_returns() {
    let mut phy = Phy::new();
    assert_eq!(drive(soft_reset(), &mut phy), End::Returned(Ok(())));
    assert_eq!(phy.asked, vec![Request::Call { procedure: GenericProc::SoftReset }]);

    let mut phy = Phy::new().failing(0, -110);
    assert_eq!(drive(soft_reset(), &mut phy), End::Returned(Err(IoError { errno: -110 })));
    assert_eq!(phy.asked, vec![Request::Call { procedure: GenericProc::SoftReset }]);
}

#[test]
fn resume_configures_after_the_framework_has_resumed() {
    let mut phy = Phy::with_ctrl(0b1100_0000);
    assert_eq!(drive(resume(), &mut phy), End::Returned(Ok(())));
    let mut expected = vec![
        Request::Call { procedure: GenericProc::Resume },
        Request::Read { addr: 17 },
        write(17, 0b0100_0000),
    ];
    expected.extend(analog_requests());
    assert_eq!(phy.asked, expected);
    assert_eq!(phy.regs[17], 0b0100_0000);
}

#[test]
fn resume_configures_even_if_the_framework_fails_to_resume() {
    let mut phy = Phy::with_ctrl(0b1100_0000).failing(0, -5);
    assert_eq!(drive(resume(), &mut phy), End::Returned(Ok(())));
    assert_eq!(phy.asked.len(), 9);
    assert_eq!(phy.asked[0], Request::Call { procedure: GenericProc::Resume });
    assert_eq!(phy.asked[1], Request::Read { addr: 17 });
    assert_eq!(phy.regs[17], 0b0100_0000);
}

#[test]
fn resume_returns_the_outcome_of_configure() {
    let mut phy = Phy::with_ctrl(0b1100_0000).failing(1, -19);
    assert_eq!(drive(resume(), &mut phy), End::Returned(Err(IoError { errno: -19 })));
    assert_eq!(phy.asked.len(), 2);

    let mut phy = Phy::with_ctrl(0b1100_0000).failing(0, -5).failing(4, -110);
    assert_eq!(drive(resume(), &mut phy), End::Returned(Err(IoError { errno: -110 })));
    assert_eq!(phy.asked.len(), 5);
}

#[test]
fn config_aneg_forces_the_polarity_before_negotiating() {
    let mut phy = Phy::with_ctrl(0);
    assert_eq!(drive(config_aneg(Polarity::MdiX), &mut phy), End::Returned(Ok(())));
    assert_eq!(
        phy.asked,
        vec![
            Request::Read { addr: 17 },
            write(17, 0b0100_0000),
            Request::Call { procedure: GenericProc::ConfigAneg },
        ]
    );
}

#[test]
fn config_aneg_negotiates_when_no_write_is_due() {
    for (ctrl, mode) in [
        (0b0100_0000u16, Polarity::MdiX),
        (0u16, Polarity::Mdi),
        (0b1100_0000u16, Polarity::Auto),
        (0u16, Polarity::Invalid),
    ] {
        let mut phy = Phy::with_ctrl(ctrl);
        assert_eq!(drive(config_aneg(mode), &mut phy), End::Returned(Ok(())));
        assert_eq!(
            phy.asked,
            vec![Request::Read { addr: 17 }, Request::Call { procedure: GenericProc::ConfigAneg }]
        );
        assert_eq!(phy.regs[17], ctrl);
    }
}

#[test]
fn config_aneg_does_not_negotiate_after_a_failure() {
    let mut phy = Phy::with_ctrl(0).failing(0, -5);
    assert_eq!(
        drive(config_aneg(Polarity::MdiX), &mut phy),
        End::Returned(Err(IoError { errno: -5 }))
    );
    assert_eq!(phy.asked, vec![Request::Read { addr: 17 }]);

    let mut phy = Phy::with_ctrl(0).failing(1, -6);
    assert_eq!(
        drive(config_aneg(Polarity::MdiX), &mut phy),
        End::Returned(Err(IoError { errno: -6 }))
    );
    assert_eq!(phy.asked, vec![Request::Read { addr: 17 }, write(17, 0b0100_0000)]);
}

#[test]
fn config_aneg_returns_the_failure_of_the_negotiation() {
    let mut phy = Phy::with_ctrl(0).failing(2, -22);
    assert_eq!(
        drive(config_aneg(Polarity::MdiX), &mut phy),
        End::Returned(Err(IoError { errno: -22 }))
    );
    assert_eq!(phy.asked.len(), 3);
}

#[test]
fn first_steps_name_the_first_operation() {
    assert_eq!(configure(), Step::Read { addr: 17, then: AfterRead::Configure });
    assert_eq!(
        resolve_polarity(Polarity::Mdi),
        Step::Read {
            addr: 17,
            then: AfterRead::Polarity { mode: Polarity::Mdi, caller: Caller::Direct },
        }
    );
    assert_eq!(
        config_aneg(Polarity::Auto),
        Step::Read {
            addr: 17,
            then: AfterRead::Polarity { mode: Polarity::Auto, caller: Caller::ConfigAneg },
        }
    );
    assert_eq!(
        suspend(),
        Step::Call { procedure: GenericProc::Suspend, then: AfterCall::Return }
    );
    assert_eq!(
        resume(),
        Step::Call { procedure: GenericProc::Resume, then: AfterCall::Configure }
    );
    assert_eq!(
        soft_reset(),
        Step::Call { procedure: GenericProc::SoftReset, then: AfterCall::Return }
    );
    assert_eq!(
        exit(),
        Step::Write {
            addr: 20,
            value: 0,
            then: AfterWrite { rest: vec![], caller: Caller::Direct },
        }
    );
}

#[test]
fn step_request_names_the_pending_operation() {
    assert_eq!(configure().request(), Some(Request::Read { addr: 17 }));
    assert_eq!(enter().request(), Some(write(20, 0x400)));
    assert_eq!(suspend().request(), Some(Request::Call { procedure: GenericProc::Suspend }));
    assert_eq!(Step::Finished(Ok(())).request(), None);
    assert_eq!(Step::Suppressed(IoError { errno: -5 }).request(), None);
}

#[test]
fn an_empty_sequence_succeeds_at_once() {
    assert_eq!(issue_writes(vec![], Caller::Direct), Step::Finished(Ok(())));
    assert_eq!(issue_writes(vec![], Caller::LinkChange), Step::Finished(Ok(())));
    assert_eq!(
        issue_writes(vec![], Caller::ConfigAneg),
        Step::Call { procedure: GenericProc::ConfigAneg, then: AfterCall::Return }
    );
}

#[test]
fn a_sequence_hands_out_its_writes_one_by_one() {
    let script = vec![RegWrite { addr: 1, value: 10 }, RegWrite { addr: 2, value: 20 }];
    let first = issue_writes(script, Caller::Direct);
    let second = match first {
        Step::Write { addr: 1, value: 10, then } => {
            assert_eq!(then.rest, vec![RegWrite { addr: 2, value: 20 }]);
            then.proceed(Ok(()))
        }
        other => panic!("unexpected step {:?}", other),
    };
    let third = match second {
        Step::Write { addr: 2, value: 20, then } => {
            assert!(then.rest.is_empty());
            then.proceed(Ok(()))
        }
        other => panic!("unexpected step {:?}", other),
    };
    assert_eq!(third, Step::Finished(Ok(())));
}

#[test]
fn callers_decide_what_becomes_of_a_result() {
    let error = IoError { errno: -5 };
    assert_eq!(Caller::Direct.conclude(Ok(())), Step::Finished(Ok(())));
    assert_eq!(Caller::Direct.conclude(Err(error)), Step::Finished(Err(error)));
    assert_eq!(Caller::LinkChange.conclude(Ok(())), Step::Finished(Ok(())));
    assert_eq!(Caller::LinkChange.conclude(Err(error)), Step::Suppressed(error));
    assert_eq!(
        Caller::ConfigAneg.conclude(Ok(())),
        Step::Call { procedure: GenericProc::ConfigAneg, then: AfterCall::Return }
    );
    assert_eq!(Caller::ConfigAneg.conclude(Err(error)), Step::Finished(Err(error)));
}

#[test]
fn continuations_of_calls() {
    let error = IoError { errno: -5 };
    assert_eq!(AfterCall::Return.proceed(Ok(())), Step::Finished(Ok(())));
    assert_eq!(AfterCall::Return.proceed(Err(error)), Step::Finished(Err(error)));
    assert_eq!(AfterCall::Configure.proceed(Ok(())), configure());
    assert_eq!(AfterCall::Configure.proceed(Err(error)), configure());
}

#[test]
fn helpers_run_on_behalf_of_their_caller() {
    assert_eq!(reinit_analog_for(Caller::Direct), reinit_analog());
    assert_eq!(
        reinit_analog_for(Caller::LinkChange),
        link_change_notify(LinkCondition { state: OperState::Running, speed: 100 })
    );
    assert_eq!(resolve_polarity_for(Polarity::Mdi, Caller::Direct), resolve_polarity(Polarity::Mdi));
    assert_eq!(
        resolve_polarity_for(Polarity::MdiX, Caller::ConfigAneg),
        config_aneg(Polarity::MdiX)
    );

    let mut phy = Phy::new().failing(3, -5);
    let end = drive(reinit_analog_for(Caller::LinkChange), &mut phy);
    assert_eq!(end, End::Logged(IoError { errno: -5 }));
    let mut phy = Phy::new().failing(3, -5);
    let end = drive(reinit_analog_for(Caller::Direct), &mut phy);
    assert_eq!(end, End::Returned(Err(IoError { errno: -5 })));
}
