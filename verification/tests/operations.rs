use std::cell::{Cell, RefCell};

use media_session::engine::{
    Double, EngineCall, EngineHandle, EngineReply, Property, StartupOption,
};
use media_session::error::MediaError;
use media_session::operations::{
    media_get_state, media_init, media_load_video, media_play_pause, media_seek, run,
};
use media_session::session::{Answer, Command, Session};
use media_session::state::PlaybackState;

/// A stand-in for the engine: it keeps a pause flag and a position, counts
/// the instances it creates, and writes every call it gets into a log.
struct FakeEngine {
    log: RefCell<Vec<EngineCall>>,
    created: Cell<u64>,
    destroyed: RefCell<Vec<u64>>,
    create_fails: Cell<bool>,
    init_status: Cell<i32>,
    read_status: Cell<i32>,
    write_status: Cell<i32>,
    command_status: Cell<i32>,
    paused: Cell<bool>,
    time_pos: Cell<u64>,
    duration: Cell<u64>,
    volume: Cell<u64>,
    speed: Cell<u64>,
}

impl FakeEngine {
    fn new() -> FakeEngine {
        FakeEngine {
            log: RefCell::new(Vec::new()),
            created: Cell::new(0),
            destroyed: RefCell::new(Vec::new()),
            create_fails: Cell::new(false),
            init_status: Cell::new(0),
            read_status: Cell::new(0),
            write_status: Cell::new(0),
            command_status: Cell::new(0),
            paused: Cell::new(true),
            time_pos: Cell::new(0.0f64.to_bits()),
            duration: Cell::new(0.0f64.to_bits()),
            volume: Cell::new(100.0f64.to_bits()),
            speed: Cell::new(1.0f64.to_bits()),
        }
    }

    fn number(&self, property: Property) -> &Cell<u64> {
        match property {
            Property::TimePos => &self.time_pos,
            Property::Duration => &self.duration,
            Property::Volume => &self.volume,
            Property::Speed => &self.speed,
            Property::Pause => unreachable!(),
        }
    }

    fn answer(&self, call: &EngineCall) -> EngineReply {
        match call {
            EngineCall::Create => {
                if self.create_fails.get() {
                    EngineReply { status: 0, word: 0 }
                } else {
                    self.created.set(self.created.get() + 1);
                    EngineReply { status: 0, word: 0x1000 * self.created.get() }
                }
            }
            EngineCall::SetOption { .. } => EngineReply { status: 0, word: 0 },
            EngineCall::Initialize { .. } => EngineReply { status: self.init_status.get(), word: 0 },
            EngineCall::Destroy { handle } => {
                self.destroyed.borrow_mut().push(handle.addr);
                EngineReply { status: 0, word: 0 }
            }
            EngineCall::GetFlag { .. } => {
                if self.read_status.get() == 0 {
                    EngineReply { status: 0, word: if self.paused.get() { 1 } else { 0 } }
                } else {
                    EngineReply { status: self.read_status.get(), word: 0xdead }
                }
            }
            EngineCall::SetFlag { on, .. } => {
                if self.write_status.get() == 0 {
                    self.paused.set(*on);
                }
                EngineReply { status: self.write_status.get(), word: 0 }
            }
            EngineCall::GetDouble { property, .. } => {
                if self.read_status.get() == 0 {
                    EngineReply { status: 0, word: self.number(*property).get() }
                } else {
                    EngineReply { status: self.read_status.get(), word: 0xdead }
                }
            }
            EngineCall::SetDouble { property, number, .. } => {
                if self.write_status.get() == 0 {
                    self.number(*property).set(number.bits);
                }
                EngineReply { status: self.write_status.get(), word: 0 }
            }
            EngineCall::LoadFile { .. } => EngineReply { status: self.command_status.get(), word: 0 },
        }
    }

    fn reply(&self, call: EngineCall) -> EngineReply {
        let reply = self.answer(&call);
        self.log.borrow_mut().push(call);
        reply
    }

    fn calls(&self) -> usize {
        self.log.borrow().len()
    }

    fn forget(&self) {
        self.log.borrow_mut().clear();
    }
}

fn number(value: f64) -> Double {
    Double { bits: value.to_bits() }
}

fn ready(engine: &FakeEngine) -> (Session, EngineHandle) {
    let mut session = Session::new();
    assert_eq!(media_init(&mut session, |call| engine.reply(call)), Ok(true));
    engine.forget();
    (session, EngineHandle { addr: 0x1000 })
}

#[test]
fn initialize_twice_creates_one_engine() {
    let engine = FakeEngine::new();
    let mut session = Session::new();
    assert!(!session.is_initialized());
    assert_eq!(media_init(&mut session, |call| engine.reply(call)), Ok(true));
    assert!(session.is_initialized());
    let calls_of_first = engine.calls();
    assert_eq!(media_init(&mut session, |call| engine.reply(call)), Ok(true));
    assert!(session.is_initialized());
    assert_eq!(engine.created.get(), 1);
    assert_eq!(engine.calls(), calls_of_first);
    assert!(engine.destroyed.borrow().is_empty());
}

#[test]
fn initialize_configures_then_brings_up() {
    let engine = FakeEngine::new();
    let mut session = Session::new();
    assert_eq!(media_init(&mut session, |call| engine.reply(call)), Ok(true));
    let handle = EngineHandle { addr: 0x1000 };
    assert_eq!(
        *engine.log.borrow(),
        vec![
            EngineCall::Create,
            EngineCall::SetOption { handle, option: StartupOption::Idle },
            EngineCall::SetOption { handle, option: StartupOption::KeepOpen },
            EngineCall::Initialize { handle },
        ]
    );
}

#[test]
fn initialize_reports_failed_creation() {
    let engine = FakeEngine::new();
    engine.create_fails.set(true);
    let mut session = Session::new();
    assert_eq!(
        media_init(&mut session, |call| engine.reply(call)),
        Err(MediaError::EngineCreation)
    );
    assert!(!session.is_initialized());
    assert_eq!(*engine.log.borrow(), vec![EngineCall::Create]);
}

#[test]
fn initialize_destroys_instance_that_fails_to_come_up() {
    let engine = FakeEngine::new();
    engine.init_status.set(-3);
    let mut session = Session::new();
    assert_eq!(
        media_init(&mut session, |call| engine.reply(call)),
        Err(MediaError::EngineInit { status: -3 })
    );
    assert!(!session.is_initialized());
    assert_eq!(*engine.destroyed.borrow(), vec![0x1000]);
    assert_eq!(
        engine.log.borrow().last(),
        Some(&EngineCall::Destroy { handle: EngineHandle { addr: 0x1000 } })
    );
    assert_eq!(engine.calls(), 5);
}

#[test]
fn initialize_can_be_retried_after_failure() {
    let engine = FakeEngine::new();
    engine.init_status.set(-1);
    let mut session = Session::new();
    assert_eq!(
        media_init(&mut session, |call| engine.reply(call)),
        Err(MediaError::EngineInit { status: -1 })
    );
    engine.init_status.set(0);
    assert_eq!(media_init(&mut session, |call| engine.reply(call)), Ok(true));
    assert!(session.is_initialized());
    assert_eq!(engine.created.get(), 2);
    assert_eq!(*engine.destroyed.borrow(), vec![0x1000]);
    engine.forget();
    assert_eq!(media_seek(&mut session, number(1.0), |call| engine.reply(call)), Ok(true));
    assert_eq!(
        *engine.log.borrow(),
        vec![EngineCall::SetDouble {
            handle: EngineHandle { addr: 0x2000 },
            property: Property::TimePos,
            number: number(1.0),
        }]
    );
}

#[test]
fn initialize_takes_positive_status_for_success() {
    let engine = FakeEngine::new();
    engine.init_status.set(7);
    let mut session = Session::new();
    assert_eq!(media_init(&mut session, |call| engine.reply(call)), Ok(true));
    assert!(session.is_initialized());
    assert!(engine.destroyed.borrow().is_empty());
}

#[test]
fn operations_before_initialize_fail() {
    let engine = FakeEngine::new();
    let mut session = Session::new();
    assert_eq!(
        media_play_pause(&mut session, |call| engine.reply(call)),
        Err(MediaError::NotInitialized)
    );
    assert_eq!(
        media_load_video(&mut session, "movie.mkv".to_string(), |call| engine.reply(call)),
        Err(MediaError::NotInitialized)
    );
    assert_eq!(
        media_get_state(&mut session, |call| engine.reply(call)),
        Err(MediaError::NotInitialized)
    );
    assert_eq!(
        media_seek(&mut session, number(12.5), |call| engine.reply(call)),
        Err(MediaError::NotInitialized)
    );
    assert_eq!(engine.calls(), 0);
    assert!(!session.is_initialized());
}

#[test]
fn operations_after_failed_initialize_fail() {
    let engine = FakeEngine::new();
    engine.create_fails.set(true);
    let mut session = Session::new();
    assert!(media_init(&mut session, |call| engine.reply(call)).is_err());
    assert_eq!(
        media_play_pause(&mut session, |call| engine.reply(call)),
        Err(MediaError::NotInitialized)
    );
}

#[test]
fn play_pause_twice_restores_paused_state() {
    let engine = FakeEngine::new();
    let (mut session, handle) = ready(&engine);
    engine.paused.set(true);
    assert_eq!(media_play_pause(&mut session, |call| engine.reply(call)), Ok(true));
    assert!(!engine.paused.get());
    assert_eq!(media_play_pause(&mut session, |call| engine.reply(call)), Ok(true));
    assert!(engine.paused.get());
    assert_eq!(
        *engine.log.borrow(),
        vec![
            EngineCall::GetFlag { handle, property: Property::Pause },
            EngineCall::SetFlag { handle, property: Property::Pause, on: false },
            EngineCall::GetFlag { handle, property: Property::Pause },
            EngineCall::SetFlag { handle, property: Property::Pause, on: true },
        ]
    );
}

#[test]
fn play_pause_twice_restores_playing_state() {
    let engine = FakeEngine::new();
    let (mut session, _) = ready(&engine);
    engine.paused.set(false);
    assert_eq!(media_play_pause(&mut session, |call| engine.reply(call)), Ok(true));
    assert!(engine.paused.get());
    assert_eq!(media_play_pause(&mut session, |call| engine.reply(call)), Ok(true));
    assert!(!engine.paused.get());
}

#[test]
fn play_pause_reports_failed_read_and_writes_nothing() {
    let engine = FakeEngine::new();
    let (mut session, handle) = ready(&engine);
    engine.read_status.set(-8);
    assert_eq!(
        media_play_pause(&mut session, |call| engine.reply(call)),
        Err(MediaError::PropertyRead { status: -8 })
    );
    assert_eq!(
        *engine.log.borrow(),
        vec![EngineCall::GetFlag { handle, property: Property::Pause }]
    );
    assert!(engine.paused.get());
}

#[test]
fn play_pause_returns_false_when_write_fails() {
    let engine = FakeEngine::new();
    let (mut session, _) = ready(&engine);
    engine.write_status.set(-11);
    assert_eq!(media_play_pause(&mut session, |call| engine.reply(call)), Ok(false));
    assert!(engine.paused.get());
    assert_eq!(engine.calls(), 2);
}

#[test]
fn play_pause_takes_any_nonzero_flag_for_paused() {
    let (mut session, handle) = ready(&FakeEngine::new());
    let written = RefCell::new(Vec::new());
    let result = media_play_pause(&mut session, |call| {
        if let EngineCall::SetFlag { on, .. } = &call {
            written.borrow_mut().push(*on);
        }
        EngineReply { status: 0, word: 0xffff_ffff_0000_0000 }
    });
    assert_eq!(result, Ok(true));
    assert_eq!(*written.borrow(), vec![false]);
    assert_eq!(handle.addr, 0x1000);
}

#[test]
fn get_state_with_all_reads_failing_returns_defaults() {
    let engine = FakeEngine::new();
    let (mut session, handle) = ready(&engine);
    engine.read_status.set(-10);
    engine.paused.set(false);
    engine.time_pos.set(number(3.0).bits);
    let state = media_get_state(&mut session, |call| engine.reply(call)).unwrap();
    assert_eq!(state.playing, false);
    assert_eq!(f64::from_bits(state.current_time.bits), 0.0);
    assert_eq!(f64::from_bits(state.duration.bits), 0.0);
    assert_eq!(f64::from_bits(state.volume.bits), 100.0);
    assert_eq!(f64::from_bits(state.speed.bits), 1.0);
    assert_eq!(state, PlaybackState::defaults());
    assert_eq!(
        *engine.log.borrow(),
        vec![
            EngineCall::GetFlag { handle, property: Property::Pause },
            EngineCall::GetDouble { handle, property: Property::TimePos },
            EngineCall::GetDouble { handle, property: Property::Duration },
            EngineCall::GetDouble { handle, property: Property::Volume },
            EngineCall::GetDouble { handle, property: Property::Speed },
        ]
    );
}

#[test]
fn get_state_reports_what_the_engine_holds() {
    let engine = FakeEngine::new();
    let (mut session, _) = ready(&engine);
    engine.paused.set(false);
    engine.time_pos.set(number(61.25).bits);
    engine.duration.set(number(5400.0).bits);
    engine.volume.set(number(130.0).bits);
    engine.speed.set(number(1.5).bits);
    let state = media_get_state(&mut session, |call| engine.reply(call)).unwrap();
    assert_eq!(
        state,
        PlaybackState {
            playing: true,
            current_time: number(61.25),
            duration: number(5400.0),
            volume: number(130.0),
            speed: number(1.5),
        }
    );
    engine.paused.set(true);
    let state = media_get_state(&mut session, |call| engine.reply(call)).unwrap();
    assert!(!state.playing);
}

#[test]
fn get_state_fills_in_only_the_reads_that_failed() {
    let (mut session, _) = ready(&FakeEngine::new());
    let state = media_get_state(&mut session, |call| match call {
        EngineCall::GetFlag { .. } => EngineReply { status: 0, word: 0 },
        EngineCall::GetDouble { property: Property::Duration, .. } => {
            EngineReply { status: 0, word: 90.0f64.to_bits() }
        }
        _ => EngineReply { status: -9, word: 42.0f64.to_bits() },
    })
    .unwrap();
    assert_eq!(
        state,
        PlaybackState {
            playing: true,
            current_time: number(0.0),
            duration: number(90.0),
            volume: number(100.0),
            speed: number(1.0),
        }
    );
}

#[test]
fn get_state_never_fails_on_a_ready_session() {
    let (mut session, _) = ready(&FakeEngine::new());
    for status in [-20, -1, 0, 1, i32::MIN, i32::MAX] {
        let result = media_get_state(&mut session, |_| EngineReply { status, word: 5 });
        assert!(result.is_ok());
    }
}

#[test]
fn seek_then_state_reflects_position() {
    let engine = FakeEngine::new();
    let (mut session, handle) = ready(&engine);
    assert_eq!(media_seek(&mut session, number(12.5), |call| engine.reply(call)), Ok(true));
    assert_eq!(
        *engine.log.borrow(),
        vec![EngineCall::SetDouble { handle, property: Property::TimePos, number: number(12.5) }]
    );
    let state = media_get_state(&mut session, |call| engine.reply(call)).unwrap();
    assert_eq!(f64::from_bits(state.current_time.bits), 12.5);
}

#[test]
fn seek_passes_any_position_through() {
    let engine = FakeEngine::new();
    let (mut session, _) = ready(&engine);
    for position in [-4.0, 0.0, 1.0e12, f64::INFINITY, f64::MIN_POSITIVE] {
        engine.forget();
        assert_eq!(media_seek(&mut session, number(position), |call| engine.reply(call)), Ok(true));
        assert_eq!(f64::from_bits(engine.time_pos.get()), position);
        assert_eq!(engine.calls(), 1);
    }
    assert_eq!(
        media_seek(&mut session, number(f64::NAN), |call| engine.reply(call)),
        Ok(true)
    );
    assert!(f64::from_bits(engine.time_pos.get()).is_nan());
}

#[test]
fn seek_reports_failed_write() {
    let engine = FakeEngine::new();
    let (mut session, _) = ready(&engine);
    engine.write_status.set(-9);
    assert_eq!(
        media_seek(&mut session, number(12.5), |call| engine.reply(call)),
        Err(MediaError::PropertyWrite { status: -9 })
    );
    engine.write_status.set(2);
    assert_eq!(
        media_seek(&mut session, number(12.5), |call| engine.reply(call)),
        Err(MediaError::PropertyWrite { status: 2 })
    );
}

#[test]
fn load_video_passes_empty_path_through() {
    let engine = FakeEngine::new();
    let (mut session, handle) = ready(&engine);
    engine.command_status.set(-12);
    assert_eq!(
        media_load_video(&mut session, String::new(), |call| engine.reply(call)),
        Err(MediaError::CommandFailed { status: -12 })
    );
    assert_eq!(*engine.log.borrow(), vec![EngineCall::LoadFile { handle, path: String::new() }]);
}

#[test]
fn load_video_hands_path_over_unchanged() {
    let engine = FakeEngine::new();
    let (mut session, handle) = ready(&engine);
    let path = "/films/ a b/\u{e9}t\u{e9}.mkv ".to_string();
    assert_eq!(
        media_load_video(&mut session, path.clone(), |call| engine.reply(call)),
        Ok(true)
    );
    assert_eq!(*engine.log.borrow(), vec![EngineCall::LoadFile { handle, path }]);
}

#[test]
fn load_video_reports_rejected_command() {
    let engine = FakeEngine::new();
    let (mut session, _) = ready(&engine);
    engine.command_status.set(-13);
    assert_eq!(
        media_load_video(&mut session, "missing.mp4".to_string(), |call| engine.reply(call)),
        Err(MediaError::CommandFailed { status: -13 })
    );
    engine.command_status.set(1);
    assert_eq!(
        media_load_video(&mut session, "missing.mp4".to_string(), |call| engine.reply(call)),
        Err(MediaError::CommandFailed { status: 1 })
    );
}

#[test]
fn operations_leave_the_held_engine_alone() {
    let engine = FakeEngine::new();
    let (mut session, handle) = ready(&engine);
    media_play_pause(&mut session, |call| engine.reply(call)).unwrap();
    media_seek(&mut session, number(2.0), |call| engine.reply(call)).unwrap();
    media_get_state(&mut session, |call| engine.reply(call)).unwrap();
    media_load_video(&mut session, "a.mkv".to_string(), |call| engine.reply(call)).unwrap();
    media_init(&mut session, |call| engine.reply(call)).unwrap();
    assert_eq!(engine.created.get(), 1);
    assert!(engine.destroyed.borrow().is_empty());
    for call in engine.log.borrow().iter() {
        let used = match call {
            EngineCall::GetFlag { handle, .. }
            | EngineCall::SetFlag { handle, .. }
            | EngineCall::GetDouble { handle, .. }
            | EngineCall::SetDouble { handle, .. }
            | EngineCall::LoadFile { handle, .. } => *handle,
            other => panic!("unexpected call {:?}", other),
        };
        assert_eq!(used, handle);
    }
}

#[test]
fn run_plays_a_command_to_its_end() {
    let engine = FakeEngine::new();
    let mut session = Session::new();
    assert_eq!(
        run(&mut session, Command::Initialize, |call| engine.reply(call)),
        Ok(Answer::Success(true))
    );
    engine.paused.set(false);
    assert_eq!(
        run(&mut session, Command::GetState, |call| engine.reply(call)),
        Ok(Answer::State(PlaybackState {
            playing: true,
            current_time: number(0.0),
            duration: number(0.0),
            volume: number(100.0),
            speed: number(1.0),
        }))
    );
    assert_eq!(
        run(&mut session, Command::Seek { position: number(-1.0) }, |call| engine.reply(call)),
        Ok(Answer::Success(true))
    );
    assert_eq!(f64::from_bits(engine.time_pos.get()), -1.0);
    assert_eq!(engine.calls(), 4 + 5 + 1);
}

#[test]
fn serialized_toggles_never_interleave() {
    // Every operation needs the session exclusively, so callers that share
    // one put it behind a lock; the engine then sees whole read-write pairs.
    let engine = FakeEngine::new();
    let (session, handle) = ready(&engine);
    let shared = std::sync::Mutex::new(session);
    let callers = 6;
    for _ in 0..callers {
        let mut guard = shared.lock().unwrap();
        assert_eq!(media_play_pause(&mut guard, |call| engine.reply(call)), Ok(true));
    }
    let log = engine.log.borrow();
    assert_eq!(log.len(), 2 * callers);
    let mut paused = true;
    for pair in log.chunks(2) {
        assert_eq!(pair[0], EngineCall::GetFlag { handle, property: Property::Pause });
        assert_eq!(pair[1], EngineCall::SetFlag { handle, property: Property::Pause, on: !paused });
        paused = !paused;
    }
    assert!(engine.paused.get());
}

fn no_call(call: EngineCall) -> EngineReply {
    panic!("the engine was called with {:?}", call)
}

#[test]
fn empty_session_never_reaches_the_engine() {
    let mut session = Session::new();
    assert_eq!(media_play_pause(&mut session, no_call), Err(MediaError::NotInitialized));
    assert_eq!(
        media_load_video(&mut session, String::new(), no_call),
        Err(MediaError::NotInitialized)
    );
    assert_eq!(media_get_state(&mut session, no_call), Err(MediaError::NotInitialized));
    assert_eq!(media_seek(&mut session, number(12.5), no_call), Err(MediaError::NotInitialized));
}

#[test]
fn second_initialize_never_reaches_the_engine() {
    let (mut session, _) = ready(&FakeEngine::new());
    assert_eq!(media_init(&mut session, no_call), Ok(true));
    assert!(session.is_initialized());
}

#[test]
fn seek_makes_only_its_one_write() {
    let (mut session, handle) = ready(&FakeEngine::new());
    let wanted = EngineCall::SetDouble { handle, property: Property::TimePos, number: number(3600.0) };
    let result = media_seek(&mut session, number(3600.0), |call| {
        assert_eq!(call, wanted);
        EngineReply { status: 0, word: 0 }
    });
    assert_eq!(result, Ok(true));
}

#[test]
fn toggle_with_failed_read_makes_only_the_read() {
    let (mut session, handle) = ready(&FakeEngine::new());
    let result = media_play_pause(&mut session, |call| {
        assert_eq!(call, EngineCall::GetFlag { handle, property: Property::Pause });
        EngineReply { status: -8, word: 0 }
    });
    assert_eq!(result, Err(MediaError::PropertyRead { status: -8 }));
}

#[test]
fn failed_creation_makes_only_the_creation() {
    let mut session = Session::new();
    let result = media_init(&mut session, |call| {
        assert_eq!(call, EngineCall::Create);
        EngineReply { status: 0, word: 0 }
    });
    assert_eq!(result, Err(MediaError::EngineCreation));
    assert!(!session.is_initialized());
}
