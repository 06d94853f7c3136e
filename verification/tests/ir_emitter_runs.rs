use irlume_camera::ir_emitter::abort::AbortNote;
use irlume_camera::ir_emitter::apply::{
    override_is_published, Application, ApplyRefusal, ApplyResult, OverrideRefusal,
};
use irlume_camera::ir_emitter::attempt::AttemptMark;
use irlume_camera::ir_emitter::capture_write::{
    Applied, CaptureReply, CaptureRequest, CaptureWrite, Hold, LockReply, SaveReply,
};
use irlume_camera::ir_emitter::consumers::ConsumerScan;
use irlume_camera::ir_emitter::control::{EmitterControl, Variable};
use irlume_camera::ir_emitter::descriptor::{CameraIdentity, ExtensionUnit, MSXU_IR_TORCH};
use irlume_camera::ir_emitter::discovery::{Discovery, DiscoveryReply, DiscoveryRequest};
use irlume_camera::ir_emitter::discovery_error::DiscoveryError;
use irlume_camera::ir_emitter::enable::{Enable, EnableReply, EnableRequest};
use irlume_camera::ir_emitter::finish::{Discovered, Finish, FinishReply, FinishRequest};
use irlume_camera::ir_emitter::memo::{OverrideKey, OverrideMemo};
use irlume_camera::ir_emitter::recovery::{AtomicWrite, RecoveryOutcome, ReportedOutcomes};
use irlume_camera::ir_emitter::recovery_pass::{
    CameraLock, Mismatch, RecordFacts, RecoveryPhase, RecoveryReply, RecoveryRequest,
    RestoreDecision, Situation,
};
use irlume_camera::ir_emitter::stream_mode::{
    RestoreError, RestoreReply, RestoreRequest, StreamMode,
};
use irlume_camera::ir_emitter::trial::{
    Brightness, Trial, TrialEnd, TrialPhase, TrialReply, TrialRequest, Unusable,
};
use irlume_camera::ir_emitter::undo::{Undo, UndoEnd, UndoReply, UndoRequest};
use irlume_camera::ir_emitter::xu::{CameraReply, CameraRequest, ControlQuery, XuError};
use irlume_camera::reading::Reading;

/// One thing that was asked, in order: of the camera, or of a store.
#[derive(Clone, Debug, PartialEq)]
enum Seen {
    Info,
    Len,
    Get(ControlQuery, usize),
    Wrote(Vec<u8>),
    Store(&'static str),
}

/// A stand-in camera, with stores beside it.
#[derive(Clone, Debug)]
struct World {
    current: Vec<u8>,
    len: u16,
    info: u8,
    def: Vec<u8>,
    max: Vec<u8>,
    min: Vec<u8>,
    res: Vec<u8>,
    /// Fail the Nth write and every one after it, with this error number.
    fail_set_from: Option<(usize, i32)>,
    /// Fail every request.
    fail_all: Option<i32>,
    /// Fail every read of the current value.
    fail_get_cur: Option<i32>,
    /// After this many reads of the current value, it quietly becomes this.
    change_after_gets: Option<(usize, Vec<u8>)>,
    gets_seen: usize,
    sets_seen: usize,
    lock: LockReply,
    save: SaveReply,
    /// Requests of the stores that fail, with why.
    trouble: Vec<(&'static str, &'static str)>,
    log: Vec<Seen>,
}

/// A camera shaped like the two that this was validated against.
fn a_working_camera() -> World {
    World {
        current: vec![1, 3, 1],
        len: 3,
        info: 0b0000_0011,
        def: vec![1, 3, 1],
        max: vec![1, 3, 3],
        min: vec![0, 0, 0],
        res: vec![1, 1, 1],
        fail_set_from: None,
        fail_all: None,
        fail_get_cur: None,
        change_after_gets: None,
        gets_seen: 0,
        sets_seen: 0,
        lock: LockReply::Taken,
        save: SaveReply::Recorded,
        trouble: Vec::new(),
        log: Vec::new(),
    }
}

impl World {
    fn ask(&mut self, request: CameraRequest<Vec<u8>>) -> CameraReply<Vec<u8>> {
        if let Some(errno) = self.fail_all {
            return CameraReply::Failed(XuError::from_errno(errno));
        }
        match request {
            CameraRequest::GetInfo => {
                self.log.push(Seen::Info);
                CameraReply::Info(self.info)
            }
            CameraRequest::GetLen => {
                self.log.push(Seen::Len);
                CameraReply::Length(self.len)
            }
            CameraRequest::Read { query, len } => {
                self.log.push(Seen::Get(query, len));
                let mut bytes = match query {
                    ControlQuery::Current => {
                        self.gets_seen += 1;
                        if let Some(errno) = self.fail_get_cur {
                            return CameraReply::Failed(XuError::from_errno(errno));
                        }
                        let now = self.current.clone();
                        if let Some((after, value)) = self.change_after_gets.clone() {
                            if self.gets_seen >= after {
                                self.current = value;
                                self.change_after_gets = None;
                            }
                        }
                        now
                    }
                    ControlQuery::Minimum => self.min.clone(),
                    ControlQuery::Maximum => self.max.clone(),
                    ControlQuery::Resolution => self.res.clone(),
                    ControlQuery::Default => self.def.clone(),
                };
                bytes.resize(len, 0);
                CameraReply::Bytes(bytes)
            }
            CameraRequest::Write(bytes) => {
                self.sets_seen += 1;
                self.log.push(Seen::Wrote(bytes.clone()));
                match self.fail_set_from {
                    Some((from, errno)) if self.sets_seen >= from => {
                        CameraReply::Failed(XuError::from_errno(errno))
                    }
                    _ => {
                        self.current = bytes;
                        CameraReply::Accepted
                    }
                }
            }
        }
    }

    /// What a store says of a request.
    fn store(&mut self, what: &'static str) -> Option<String> {
        self.log.push(Seen::Store(what));
        self.trouble
            .iter()
            .find(|(name, _)| *name == what)
            .map(|(_, why)| why.to_string())
    }

    fn capture(&mut self, request: CaptureRequest<Vec<u8>>) -> CaptureReply<Vec<u8>> {
        match request {
            CaptureRequest::Camera(request) => CaptureReply::Camera(self.ask(request)),
            CaptureRequest::AcquireLock => {
                self.store("lock");
                CaptureReply::Lock(self.lock)
            }
            CaptureRequest::SaveRecord { .. } => {
                self.store("save");
                CaptureReply::Save(self.save)
            }
            CaptureRequest::ConfirmRecord => {
                CaptureReply::Stored(self.store("confirm").is_none())
            }
            CaptureRequest::ResolveRecord => {
                CaptureReply::Stored(self.store("resolve").is_none())
            }
        }
    }

    fn writes(&self) -> usize {
        self.log
            .iter()
            .filter(|seen| matches!(seen, Seen::Wrote(_)))
            .count()
    }

    fn position(&self, what: &Seen) -> Option<usize> {
        self.log.iter().position(|seen| seen == what)
    }
}

fn identity(vid: u16, pid: u16) -> CameraIdentity {
    let unit = |unit_id, microsoft, selectors: &[u8]| ExtensionUnit {
        unit_id,
        microsoft,
        selectors: selectors.to_vec(),
    };
    CameraIdentity {
        vid,
        pid,
        interface_number: 2,
        serial: Some("200901010001".into()),
        usb_devpath: "/devices/pci0000:00/0000:00:14.0/usb3/3-5".into(),
        units: vec![
            unit(11, false, &[1, 2]),
            unit(10, false, &[10, 11]),
            unit(14, true, &[6, 9]),
        ],
    }
}

fn ctrl(unit: u8, selector: u8, payload: Vec<u8>) -> EmitterControl {
    EmitterControl {
        unit,
        selector,
        payload,
    }
}

fn torch(mode: u32, value: u32) -> Vec<u8> {
    let mut v = mode.to_le_bytes().to_vec();
    v.extend_from_slice(&value.to_le_bytes());
    v
}

// --- applying ----------------------------------------------------------------------------------

fn run_application(mut application: Application<Vec<u8>>, world: &mut World) -> ApplyResult<Vec<u8>> {
    while let Some(request) = application.request() {
        let reply = world.capture(request);
        application = application.advance(reply);
    }
    application.outcome().expect("it ended")
}

/// The override's gate and, where it is passed, its application.
fn check_and_apply_override(
    world: &mut World,
    id: &CameraIdentity,
    ctrl: &EmitterControl,
) -> Result<CaptureWrite<Vec<u8>>, OverrideRefusal<Vec<u8>>> {
    override_is_published(id, ctrl)?;
    let application = Application::known_payload(ctrl.clone());
    match run_application(application.clone(), world) {
        ApplyResult::Done { write, .. } => Ok(write),
        ApplyResult::Refused(why) => Err(application.override_refusal(why)),
    }
}

fn applied(world: &mut World, payload: &[u8]) -> CaptureWrite<Vec<u8>> {
    check_and_apply_override(world, &identity(0x3277, 0x0059), &ctrl(14, 6, payload.to_vec()))
        .expect("a published control with a valid payload is applied")
}

#[test]
fn an_unpublished_unit_is_refused_without_reaching_the_device() {
    let asus = identity(0x3277, 0x0059);
    let mut world = a_working_camera();
    assert_eq!(
        check_and_apply_override(&mut world, &asus, &ctrl(3, 1, vec![255])).unwrap_err(),
        OverrideRefusal::NoSuchUnit {
            unit: 3,
            seen: vec![11, 10, 14]
        }
    );
    assert_eq!(
        check_and_apply_override(&mut world, &asus, &ctrl(14, 10, vec![0; 4])).unwrap_err(),
        OverrideRefusal::NotAdvertised {
            unit: 14,
            selector: 10
        }
    );
    assert_eq!(world.log, []);
}

#[test]
fn a_camera_that_will_not_answer_is_not_written_to() {
    let asus = identity(0x3277, 0x0059);
    let mut world = World {
        fail_all: Some(libc::ENOTTY),
        ..a_working_camera()
    };
    assert!(matches!(
        check_and_apply_override(
            &mut world,
            &asus,
            &ctrl(14, 6, vec![1, 3, 2, 0, 0, 0, 0, 0, 0])
        ),
        Err(OverrideRefusal::Unreadable {
            unit: 14,
            selector: 6,
            ..
        })
    ));
    assert_eq!(world.log, []);
}

#[test]
fn a_control_that_cannot_be_read_is_not_written_to() {
    let asus = identity(0x3277, 0x0059);
    let mut world = World {
        fail_get_cur: Some(libc::ENOTTY),
        ..a_working_camera()
    };
    assert_eq!(
        check_and_apply_override(&mut world, &asus, &ctrl(14, 6, vec![1, 3, 2])).unwrap_err(),
        OverrideRefusal::Unreadable {
            unit: 14,
            selector: 6,
            err: XuError::Unresponsive(libc::ENOTTY)
        }
    );
    assert_eq!(world.writes(), 0);
}

#[test]
fn the_cameras_word_is_asked_before_a_write() {
    let asus = identity(0x3277, 0x0059);
    let mut disabled = World {
        info: 0b0000_0111,
        ..a_working_camera()
    };
    assert_eq!(
        check_and_apply_override(&mut disabled, &asus, &ctrl(14, 6, vec![1, 3, 2])).unwrap_err(),
        OverrideRefusal::WriteNotAccepted {
            unit: 14,
            selector: 6,
            info: 7
        }
    );
    assert_eq!(disabled.log, [Seen::Info]);
    let mut longer = a_working_camera();
    assert_eq!(
        check_and_apply_override(&mut longer, &asus, &ctrl(14, 6, vec![1; 9])).unwrap_err(),
        OverrideRefusal::WrongLength {
            unit: 14,
            selector: 6,
            wants: 3,
            given: 9
        }
    );
    assert_eq!(longer.log, [Seen::Info, Seen::Len]);
    let mut phantom = World {
        len: 0,
        ..a_working_camera()
    };
    let refused = run_application(Application::device_default(14, 6), &mut phantom);
    assert_eq!(
        refused,
        ApplyResult::Refused(ApplyRefusal::Unreadable(XuError::Unsupported))
    );
    assert_eq!(ApplyRefusal::NotDerived.error(), XuError::Unsupported);
}

#[test]
fn an_override_the_control_already_holds_is_not_written_or_undone() {
    let mut world = World {
        current: vec![1, 3, 2],
        ..a_working_camera()
    };
    let held = applied(&mut world, &[1, 3, 2]);
    assert_eq!(held.outcome, Applied::AlreadyHeld);
    assert_eq!(held.current, [1, 3, 2]);
    assert_eq!(
        held.hold,
        Hold::Lock,
        "no write went out, so there is no leftover to record"
    );
    assert_eq!(world.writes(), 0);
    let mut mode = StreamMode {
        armed: held.outcome == Applied::Wrote,
        active: held.outcome != Applied::Nothing,
        ..armed(vec![1, 3, 1], vec![1, 3, 2], Hold::Nothing)
    };
    restore(&mut mode, &mut world).expect("nothing to do");
    assert_eq!(
        world.current,
        [1, 3, 2],
        "the stream end must not put the default over a value that was found in place"
    );
    world.current = vec![1, 3, 1];
    let written = applied(&mut world, &[1, 3, 2]);
    assert_eq!(written.outcome, Applied::Wrote);
    assert_eq!(written.current, [1, 3, 1]);
    assert_eq!(written.hold, Hold::Record);
}

#[test]
fn a_known_payload_the_control_already_holds_is_not_rewritten() {
    let known = || Application::known_payload(ctrl(14, 6, vec![1, 3, 2]));
    let mut world = World {
        current: vec![1, 3, 2],
        ..a_working_camera()
    };
    assert!(matches!(
        run_application(known(), &mut world),
        ApplyResult::Done { write, .. } if write.outcome == Applied::AlreadyHeld
    ));
    assert_eq!(world.writes(), 0);
    world.current = vec![9, 9, 9];
    match run_application(known(), &mut world) {
        ApplyResult::Done { write, applied } => {
            assert_eq!(write.outcome, Applied::Wrote);
            assert_eq!(write.current, [9, 9, 9]);
            assert_eq!(applied, [1, 3, 2]);
        }
        other => panic!("{other:?}"),
    }
    assert_eq!(world.current, [1, 3, 2]);
}

#[test]
fn one_read_decides_and_its_answer_is_what_the_write_displaced() {
    let mut world = World {
        current: vec![7, 7, 7],
        ..a_working_camera()
    };
    let write = applied(&mut world, &[1, 3, 2]);
    assert_eq!(write.outcome, Applied::Wrote);
    assert_eq!(write.current, [7, 7, 7]);
    assert_eq!(
        world.log,
        [
            Seen::Info,
            Seen::Len,
            Seen::Store("lock"),
            Seen::Get(ControlQuery::Current, 3),
            Seen::Store("save"),
            Seen::Wrote(vec![1, 3, 2]),
            Seen::Store("confirm"),
        ],
        "one read, under the lock, and the record is saved before the write that it covers"
    );
}

#[test]
fn a_contested_write_is_refused_not_made_unrecorded() {
    let mut world = World {
        lock: LockReply::Busy,
        ..a_working_camera()
    };
    assert_eq!(applied(&mut world, &[1, 3, 2]), CaptureWrite::refused());
    assert_eq!(world.log, [Seen::Info, Seen::Len, Seen::Store("lock")]);
}

#[test]
fn a_write_never_destroys_a_live_record_for_another_control() {
    let asus = identity(0x3277, 0x0059);
    // The store holds a record of a change of selector 6 to [1, 3, 2].
    let mut world = World {
        save: SaveReply::Outstanding,
        ..a_working_camera()
    };
    assert_eq!(
        check_and_apply_override(&mut world, &asus, &ctrl(14, 9, vec![1, 3, 2])),
        Ok(CaptureWrite::refused())
    );
    assert_eq!(world.writes(), 0);
    world.current = vec![1, 3, 2];
    assert_eq!(
        check_and_apply_override(&mut world, &asus, &ctrl(14, 6, vec![1, 3, 3])),
        Ok(CaptureWrite::refused())
    );
    assert_eq!(world.writes(), 0);
    // Other bytes in the control supersede that record.
    world.current = vec![9, 9, 9];
    world.save = SaveReply::Recorded;
    let write = check_and_apply_override(&mut world, &asus, &ctrl(14, 6, vec![1, 3, 3]))
        .expect("a superseded record does not block");
    assert_eq!(write.outcome, Applied::Wrote);
    assert_eq!(write.hold, Hold::Record);
    assert_eq!(world.current, [1, 3, 3]);
}

#[test]
fn a_write_never_destroys_a_record_that_must_not_be_reasoned_past() {
    let mut world = World {
        save: SaveReply::Protected,
        ..a_working_camera()
    };
    assert_eq!(applied(&mut world, &[1, 3, 2]), CaptureWrite::refused());
    assert_eq!(world.writes(), 0);
}

#[test]
fn a_failed_save_keeps_the_lock_held_for_the_streams_lifetime() {
    let mut world = World {
        save: SaveReply::Unavailable,
        ..a_working_camera()
    };
    let write = applied(&mut world, &[1, 3, 2]);
    assert_eq!(write.outcome, Applied::Wrote);
    assert_eq!(write.hold, Hold::Lock);
    let mut mode = armed(write.current, vec![1, 3, 2], write.hold);
    restore(&mut mode, &mut world).expect("the unrecorded change restores");
    assert_eq!(world.current, [1, 3, 1]);
    assert_eq!(mode.hold, Hold::Nothing, "the lock goes with the restore");
    let mut unlocked = World {
        lock: LockReply::Unavailable,
        ..a_working_camera()
    };
    let write = applied(&mut unlocked, &[1, 3, 2]);
    assert_eq!(write.outcome, Applied::Wrote);
    assert_eq!(write.hold, Hold::Nothing);
    assert_eq!(unlocked.position(&Seen::Store("save")), None);
}

#[test]
fn a_rejected_write_leaves_no_record() {
    let mut world = World {
        fail_set_from: Some((1, libc::EIO)),
        ..a_working_camera()
    };
    let write = applied(&mut world, &[1, 3, 2]);
    assert_eq!(write.outcome, Applied::Nothing);
    assert_eq!(write.hold, Hold::Nothing);
    assert_eq!(world.log.last(), Some(&Seen::Store("resolve")));
    assert_eq!(world.writes(), 1);
}

#[test]
fn applying_the_ir_torch_default_leaves_nothing_to_restore() {
    let def = torch(2, 120);
    let mut world = World {
        current: def.clone(),
        len: 8,
        info: 3,
        def: def.clone(),
        min: torch(0, 10),
        max: torch(0b011, 200),
        res: torch(0, 1),
        ..a_working_camera()
    };
    match run_application(Application::device_default(14, MSXU_IR_TORCH), &mut world) {
        ApplyResult::Done { write, applied } => {
            assert_eq!(applied, def, "the applied bytes are the camera's own default");
            assert_eq!(write.outcome, Applied::AlreadyHeld);
            let mut mode = StreamMode {
                selector: MSXU_IR_TORCH,
                armed: write.outcome == Applied::Wrote,
                ..armed(def.clone(), vec![1, 3, 2], Hold::Nothing)
            };
            restore(&mut mode, &mut world).expect("nothing to do");
        }
        other => panic!("{other:?}"),
    }
    assert_eq!(world.writes(), 0);
    // A torch that reports itself changed by the camera is not driven.
    world.info = 0x13;
    assert_eq!(
        run_application(Application::device_default(14, MSXU_IR_TORCH), &mut world),
        ApplyResult::Refused(ApplyRefusal::NotDerived)
    );
}

#[test]
fn a_recorded_control_is_derived_anew_from_the_camera() {
    let mut world = a_working_camera();
    match run_application(Application::device_default(14, 6), &mut world) {
        ApplyResult::Done { write, applied } => {
            assert_eq!(applied, [1, 3, 2]);
            assert_eq!(write.outcome, Applied::Wrote);
        }
        other => panic!("{other:?}"),
    }
    assert_eq!(
        world.log[..4],
        [
            Seen::Info,
            Seen::Len,
            Seen::Get(ControlQuery::Default, 3),
            Seen::Get(ControlQuery::Maximum, 3),
        ]
    );
}

#[test]
fn the_record_is_on_disk_before_the_write_and_gone_after_the_restore() {
    let mut world = a_working_camera();
    let write = applied(&mut world, &[1, 3, 2]);
    let saved = world.position(&Seen::Store("save")).expect("a record");
    let sent = world.position(&Seen::Wrote(vec![1, 3, 2])).expect("a write");
    assert!(saved < sent);
    assert_eq!(world.log.last(), Some(&Seen::Store("confirm")));
    let mut mode = armed(write.current, vec![1, 3, 2], write.hold);
    restore(&mut mode, &mut world).expect("restore");
    assert_eq!(world.current, [1, 3, 1], "the control is back");
    assert_eq!(world.log.last(), Some(&Seen::Store("resolve")));
}

#[test]
fn a_failed_confirmation_does_not_block_the_restore() {
    let mut world = World {
        trouble: vec![("confirm", "not a directory")],
        ..a_working_camera()
    };
    let write = applied(&mut world, &[1, 3, 2]);
    assert_eq!(write.outcome, Applied::Wrote);
    assert_eq!(write.hold, Hold::Record);
    // An unconfirmed record is out of force already, so retiring it succeeds.
    let mut mode = armed(write.current, vec![1, 3, 2], write.hold);
    restore(&mut mode, &mut world)
        .expect("an unconfirmed record must not block the hardware cleanup");
    assert_eq!(world.current, [1, 3, 1]);
}

// --- restoring ---------------------------------------------------------------------------------

fn restore(mode: &mut StreamMode, world: &mut World) -> Result<(), RestoreError> {
    let Some(mut restoration) = mode.restore() else {
        return Ok(());
    };
    while let Some(request) = restoration.request() {
        let reply = match request {
            RestoreRequest::Camera(request) => RestoreReply::Camera(world.ask(request)),
            RestoreRequest::RetireRecord => RestoreReply::Stored(world.store("retire")),
            RestoreRequest::ResolveRecord => RestoreReply::Stored(world.store("resolve")),
            RestoreRequest::RepromoteRecord => RestoreReply::Stored(world.store("repromote")),
        };
        restoration.advance(reply);
    }
    restoration.outcome().expect("it ended")
}

fn armed(restore: Vec<u8>, applied: Vec<u8>, hold: Hold) -> StreamMode {
    StreamMode {
        unit: 14,
        selector: 6,
        restore,
        applied,
        armed: true,
        active: true,
        hold,
    }
}

#[test]
fn a_stream_mode_puts_the_control_back_when_it_ends() {
    let mut world = World {
        current: vec![1, 3, 2],
        ..a_working_camera()
    };
    let mut mode = armed(vec![1, 3, 1], vec![1, 3, 2], Hold::Nothing);
    assert_eq!(world.current, [1, 3, 2]);
    restore(&mut mode, &mut world).expect("restore");
    assert_eq!(world.current, [1, 3, 1]);
}

#[test]
fn a_stream_mode_that_applied_nothing_writes_nothing() {
    let mut world = World {
        current: vec![9, 9, 9],
        ..a_working_camera()
    };
    restore(&mut StreamMode::inert(), &mut world).expect("nothing to do");
    let mut unarmed = StreamMode {
        armed: false,
        ..armed(vec![1, 3, 1], vec![1, 3, 2], Hold::Nothing)
    };
    restore(&mut unarmed, &mut world).expect("nothing to do");
    assert_eq!(world.current, [9, 9, 9]);
    assert_eq!(world.log, []);
}

#[test]
fn ownership_of_the_restore_does_not_pass_to_a_guard_that_owns_nothing() {
    let held = armed(vec![1, 3, 1], vec![1, 3, 2], Hold::Nothing);
    let already = StreamMode {
        armed: false,
        ..armed(vec![1, 3, 1], vec![1, 3, 2], Hold::Nothing)
    };
    assert!(already.lit(), "the mode is active on the reopened stream");
    assert!(
        !already.owns_restore(),
        "but it wrote nothing, so it owes no restore"
    );
    assert!(
        held.owns_restore(),
        "the original guard is the one holding the change"
    );
    assert_ne!(
        already.lit(),
        already.owns_restore(),
        "lit and owns_restore must not be read as the same question"
    );
}

#[test]
fn a_non_default_mode_is_put_back_rather_than_defaulted() {
    let default = vec![1, 3, 1];
    let theirs = vec![1, 3, 4];
    let ours = vec![1, 3, 2];
    let mut world = World {
        current: theirs.clone(),
        def: default.clone(),
        ..a_working_camera()
    };
    let mut mode = armed(theirs.clone(), ours.clone(), Hold::Nothing);
    world.current = ours;
    restore(&mut mode, &mut world).expect("restore");
    assert_eq!(world.current, theirs);
    assert_ne!(world.current, default);
}

#[test]
fn a_control_moved_by_someone_else_is_not_restored_over() {
    let mut world = World {
        current: vec![1, 3, 2],
        ..a_working_camera()
    };
    let mut mode = armed(vec![1, 3, 1], vec![1, 3, 2], Hold::Nothing);
    world.current = vec![1, 3, 3];
    restore(&mut mode, &mut world).expect("a refusal to overwrite is not an error");
    restore(&mut mode, &mut world).expect("nothing is left to do");
    assert_eq!(world.current, [1, 3, 3]);
    assert_eq!(world.writes(), 0);
}

#[test]
fn the_record_of_a_control_that_was_moved_is_dropped() {
    let mut world = World {
        current: vec![1, 3, 3],
        ..a_working_camera()
    };
    let mut mode = armed(vec![1, 3, 1], vec![1, 3, 2], Hold::Record);
    restore(&mut mode, &mut world).expect("a refusal to overwrite is not an error");
    assert_eq!(world.writes(), 0);
    assert_eq!(world.log.last(), Some(&Seen::Store("resolve")));
}

#[test]
fn restoring_twice_writes_once() {
    let mut world = World {
        current: vec![1, 3, 2],
        ..a_working_camera()
    };
    let mut mode = armed(vec![1, 3, 1], vec![1, 3, 2], Hold::Nothing);
    restore(&mut mode, &mut world).expect("the first restore writes");
    assert_eq!(world.writes(), 1);
    restore(&mut mode, &mut world).expect("the second restore is a no-op");
    assert_eq!(world.writes(), 1);
    assert_eq!(world.current, [1, 3, 1]);
}

#[test]
fn the_record_is_demoted_before_the_restoring_write() {
    let mut world = World {
        current: vec![1, 3, 2],
        ..a_working_camera()
    };
    let mut mode = armed(vec![1, 3, 1], vec![1, 3, 2], Hold::Record);
    restore(&mut mode, &mut world).expect("restore");
    assert_eq!(
        world.log,
        [
            Seen::Store("retire"),
            Seen::Get(ControlQuery::Current, 3),
            Seen::Wrote(vec![1, 3, 1]),
            Seen::Store("resolve"),
        ]
    );
}

#[test]
fn a_record_that_cannot_be_retired_blocks_the_restore() {
    let mut world = World {
        current: vec![1, 3, 2],
        trouble: vec![("retire", "not a directory")],
        ..a_working_camera()
    };
    let mut mode = armed(vec![1, 3, 1], vec![1, 3, 2], Hold::Record);
    let result = restore(&mut mode, &mut world);
    match &result {
        Err(RestoreError::Bookkeeping(why)) => assert_eq!(
            why,
            "not restoring unit14/sel6: its stream record cannot be retired (not a directory); \
             the mode stays applied and the record stays claimable for the next session"
        ),
        other => panic!("{other:?}"),
    }
    assert_eq!(
        result.unwrap_err().message(),
        "not restoring unit14/sel6: its stream record cannot be retired (not a directory); the \
         mode stays applied and the record stays claimable for the next session"
    );
    assert!(!mode.owns_restore());
    assert_eq!(world.writes(), 0);
    assert_eq!(world.current, [1, 3, 2]);
}

#[test]
fn an_unrecorded_guards_failed_restore_reports_the_camera_error() {
    let mut world = World {
        current: vec![1, 3, 2],
        fail_set_from: Some((1, libc::EIO)),
        ..a_working_camera()
    };
    let mut mode = armed(vec![1, 3, 1], vec![1, 3, 2], Hold::Lock);
    assert_eq!(
        restore(&mut mode, &mut world),
        Err(RestoreError::Camera(XuError::Unresponsive(libc::EIO)))
    );
    assert_eq!(mode.hold, Hold::Nothing, "the lock goes with the attempt");
}

#[test]
fn an_unreadable_control_is_not_blindly_restored() {
    let mut world = World {
        current: vec![7, 7, 7],
        fail_get_cur: Some(libc::EIO),
        ..a_working_camera()
    };
    let mut mode = armed(vec![1, 3, 1], vec![1, 3, 2], Hold::Record);
    assert!(matches!(
        restore(&mut mode, &mut world),
        Err(RestoreError::Camera(_))
    ));
    assert_eq!(world.writes(), 0);
    assert_eq!(world.current, [7, 7, 7]);
    assert_eq!(world.log.last(), Some(&Seen::Store("repromote")));
}

#[test]
fn a_failed_restore_repromotes_the_record() {
    let mut world = World {
        current: vec![1, 3, 2],
        fail_set_from: Some((1, libc::EIO)),
        ..a_working_camera()
    };
    let mut mode = armed(vec![1, 3, 1], vec![1, 3, 2], Hold::Record);
    assert!(restore(&mut mode, &mut world).is_err());
    assert_eq!(world.log.last(), Some(&Seen::Store("repromote")));
    assert_eq!(world.position(&Seen::Store("resolve")), None);
}

// --- lighting ----------------------------------------------------------------------------------

struct Session {
    variable: Variable,
    scan: ConsumerScan,
    id: Option<CameraIdentity>,
    conf: Option<String>,
    device: Option<u64>,
    memo: OverrideMemo,
    pending: Situation<String>,
    claim: Option<Vec<u8>>,
    asked: Vec<&'static str>,
}

fn session() -> Session {
    Session {
        variable: Variable::NotPresent,
        scan: ConsumerScan::nothing(),
        id: Some(identity(0x3277, 0x0059)),
        conf: None,
        device: Some(7),
        memo: OverrideMemo::new(),
        pending: Situation::Nothing,
        claim: None,
        asked: Vec::new(),
    }
}

fn run_enable(session: &mut Session, world: &mut World) -> StreamMode {
    let mut enable = Enable::new();
    while let Some(request) = enable.request() {
        let (name, reply) = match request {
            EnableRequest::ReadVariable => {
                ("variable", EnableReply::Variable(session.variable.clone()))
            }
            EnableRequest::ScanConsumers => ("scan", EnableReply::Scanned(session.scan.clone())),
            EnableRequest::ReadIdentity => ("identity", EnableReply::Identity(session.id.clone())),
            EnableRequest::Recovery(RecoveryRequest::LockCamera) => (
                "recovery",
                EnableReply::Recovery(RecoveryReply::Locked(CameraLock::Held)),
            ),
            EnableRequest::Recovery(RecoveryRequest::LoadRecord) => (
                "recovery",
                EnableReply::Recovery(RecoveryReply::Loaded(session.pending.clone())),
            ),
            EnableRequest::Recovery(other) => panic!("{other:?}"),
            EnableRequest::ReadConf => ("conf", EnableReply::Conf(session.conf.clone())),
            EnableRequest::DeviceNumber => ("device", EnableReply::Device(session.device)),
            EnableRequest::Consult { key, payload } => (
                "consult",
                EnableReply::Consulted(Some(session.memo.consult(key, &payload))),
            ),
            EnableRequest::Capture(request) => {
                ("capture", EnableReply::Capture(world.capture(request)))
            }
            EnableRequest::Settle {
                key,
                payload,
                applied,
            } => {
                session.memo.settle(key, &payload, applied);
                ("settle", EnableReply::Settled)
            }
            EnableRequest::Claim { .. } => ("claim", EnableReply::Claimed(session.claim.clone())),
        };
        if session.asked.last() != Some(&name) {
            session.asked.push(name);
        }
        enable = enable.advance(reply);
    }
    match enable {
        Enable::Ready(mode) => mode,
        other => panic!("{other:?}"),
    }
}

#[test]
fn enable_honors_off_env_and_config_precedence() {
    for off in ["off", "none"] {
        let mut session = Session {
            variable: Variable::Text(off.into()),
            ..session()
        };
        let mut world = a_working_camera();
        assert!(!run_enable(&mut session, &mut world).lit());
        assert_eq!(session.asked, ["variable"]);
        assert_eq!(world.log, []);
    }
    // Nothing is driven without an identity: an override, the built-in control or a recorded one.
    for (variable, conf) in [
        (Variable::Text("14:6:1,3,2".into()), None),
        (Variable::NotPresent, None),
        (Variable::NotPresent, Some("3277:0059 1:2".to_string())),
    ] {
        let mut session = Session {
            variable,
            conf,
            id: None,
            ..self::session()
        };
        let mut world = a_working_camera();
        assert!(!run_enable(&mut session, &mut world).lit());
        assert_eq!(world.log, []);
    }
    // An unknown camera has no built-in control, and a record of another camera is none.
    let mut session = Session {
        id: Some(identity(1, 2)),
        conf: Some("3277:0059 14:6".into()),
        ..self::session()
    };
    let mut world = a_working_camera();
    assert!(!run_enable(&mut session, &mut world).lit());
    assert_eq!(world.log, []);
}

#[test]
fn a_set_override_writes_nothing_when_the_descriptor_cannot_be_read() {
    let mut session = Session {
        variable: Variable::Text("14:6:1,3,2,0,0,0,0,0,0".into()),
        id: None,
        ..session()
    };
    let mut world = a_working_camera();
    assert!(!run_enable(&mut session, &mut world).lit());
    assert_eq!(session.asked, ["variable", "scan", "identity"]);
    assert_eq!(
        world.log,
        [],
        "an override was sent to a device whose descriptors were never read"
    );
}

#[test]
fn a_malformed_variable_drives_nothing() {
    let mut session = Session {
        variable: Variable::Text("4:6:1,3,bad".into()),
        ..session()
    };
    let mut world = a_working_camera();
    assert!(!run_enable(&mut session, &mut world).lit());
    assert_eq!(world.log, []);
}

#[test]
fn a_recorded_control_lights_the_stream_and_is_put_back() {
    let mut session = Session {
        conf: Some("3277:0059 14:6".into()),
        ..session()
    };
    let mut world = a_working_camera();
    let mut mode = run_enable(&mut session, &mut world);
    assert!(mode.lit() && mode.owns_restore());
    assert_eq!(
        session.asked,
        ["variable", "scan", "identity", "recovery", "conf", "capture"]
    );
    assert_eq!((mode.unit, mode.selector), (14, 6));
    assert_eq!(mode.restore, [1, 3, 1]);
    assert_eq!(mode.applied, [1, 3, 2]);
    assert_eq!(mode.hold, Hold::Record);
    restore(&mut mode, &mut world).expect("restore");
    assert_eq!(world.current, [1, 3, 1]);
}

#[test]
fn lighting_changes_the_camera_at_most_once() {
    // The override is refused by the camera, and no other source is tried after it.
    let mut session = Session {
        variable: Variable::Text("14:6:1,3,2".into()),
        conf: Some("3277:0059 14:6".into()),
        ..session()
    };
    let mut world = World {
        fail_set_from: Some((1, libc::EIO)),
        ..a_working_camera()
    };
    let mode = run_enable(&mut session, &mut world);
    assert!(!mode.lit() && !mode.owns_restore());
    assert_eq!(world.writes(), 1);
    assert!(!session.asked.contains(&"conf"));
}

#[test]
fn a_seen_consumer_stands_the_emitter_down() {
    let mut session = Session {
        scan: ConsumerScan {
            consumers: vec![(1234, "chrome".to_string())],
            permission_denied: false,
        },
        ..session()
    };
    let mut world = a_working_camera();
    assert!(!run_enable(&mut session, &mut world).lit());
    assert_eq!(session.asked, ["variable", "scan"]);
    assert_eq!(world.log, []);
}

#[test]
fn a_pending_change_elsewhere_stops_the_emitter() {
    let mut session = Session {
        pending: Situation::SameModelElsewhere {
            unit: 14,
            selector: 6,
            original: "010301".into(),
            usb_devpath: String::new(),
        },
        ..session()
    };
    let mut world = a_working_camera();
    assert!(!run_enable(&mut session, &mut world).lit());
    assert_eq!(world.log, []);
}

#[test]
fn an_override_is_decided_once_per_control() {
    let mut session = Session {
        variable: Variable::Text("14:6:1,3,2".into()),
        ..session()
    };
    let mut world = a_working_camera();
    let mut mode = run_enable(&mut session, &mut world);
    assert!(mode.owns_restore());
    assert_eq!(session.asked.last(), Some(&"settle"));
    restore(&mut mode, &mut world).expect("restore");
    // The next stream applies the decided bytes again, without a new decision.
    session.asked.clear();
    let mode = run_enable(&mut session, &mut world);
    assert!(mode.owns_restore());
    assert_eq!(session.asked.last(), Some(&"capture"));
    // Other bytes for that control are refused without a request.
    world.log.clear();
    session.variable = Variable::Text("14:6:1,3,1".into());
    assert!(!run_enable(&mut session, &mut world).lit());
    assert_eq!(world.log, []);
}

#[test]
fn a_remembered_success_is_rechecked_against_the_camera() {
    let mut session = Session {
        variable: Variable::Text("20:21:1,3,2".into()),
        ..session()
    };
    let key = OverrideKey {
        rdev: 7,
        interface_number: 2,
        vid: 0x3277,
        pid: 0x0059,
        unit: 20,
        selector: 21,
    };
    session.memo.settle(key, &[1, 3, 2], true);
    let mut world = World {
        fail_all: Some(libc::ENOTTY),
        ..a_working_camera()
    };
    let mode = run_enable(&mut session, &mut world);
    assert!(session.asked.contains(&"consult"));
    assert_eq!(world.writes(), 0, "re-checking must not write");
    assert!(
        !mode.lit(),
        "a camera that does not answer must not be reported as lit on the strength of an earlier \
         write"
    );
}

#[test]
fn a_remembered_success_that_cannot_be_read_back_is_not_lit() {
    let mut session = Session {
        variable: Variable::Text("14:6:1,3,2".into()),
        ..session()
    };
    let mut world = a_working_camera();
    run_enable(&mut session, &mut world);
    world.current = vec![1, 3, 1];
    world.fail_get_cur = Some(libc::EIO);
    session.asked.clear();
    assert!(!run_enable(&mut session, &mut world).lit());
    assert_eq!(session.asked.last(), Some(&"capture"));
}

#[test]
fn a_refusal_is_remembered_and_the_unidentified_device_is_left_alone() {
    let mut session = Session {
        variable: Variable::Text("3:1:255".into()),
        ..session()
    };
    let mut world = a_working_camera();
    let mode = run_enable(&mut session, &mut world);
    assert!(!mode.lit());
    assert_eq!(mode.applied, [255]);
    assert_eq!(session.asked.last(), Some(&"settle"));
    session.asked.clear();
    run_enable(&mut session, &mut world);
    assert_eq!(session.asked.last(), Some(&"consult"));
    session.device = None;
    session.asked.clear();
    run_enable(&mut session, &mut world);
    assert_eq!(session.asked.last(), Some(&"device"));
    assert_eq!(world.log, []);
}

#[test]
fn a_crash_leftover_is_claimed_and_the_next_session_restores_it() {
    let mut world = a_working_camera();
    let write = applied(&mut world, &[1, 3, 2]);
    assert_eq!(write.outcome, Applied::Wrote);
    assert_eq!(write.hold, Hold::Record);
    // While its owner lives, the stream lock is refused.
    world.lock = LockReply::Busy;
    assert_eq!(applied(&mut world, &[1, 3, 2]), CaptureWrite::refused());
    // The owner is gone without a restore.
    world.lock = LockReply::Taken;
    assert_eq!(world.current, [1, 3, 2]);
    let next = applied(&mut world, &[1, 3, 2]);
    assert_eq!(next.outcome, Applied::AlreadyHeld);
    assert_eq!(next.hold, Hold::Lock);
    // The next session finds the value in place, and the leftover hands back what was displaced.
    let mut session = Session {
        variable: Variable::Text("14:6:1,3,2".into()),
        claim: Some(vec![1, 3, 1]),
        ..session()
    };
    let mut mode = run_enable(&mut session, &mut world);
    assert!(session.asked.contains(&"claim"));
    assert!(mode.lit() && mode.owns_restore());
    assert_eq!(mode.restore, [1, 3, 1]);
    assert_eq!(mode.hold, Hold::Record);
    restore(&mut mode, &mut world).expect("restore");
    assert_eq!(world.current, [1, 3, 1]);
    assert_eq!(world.log.last(), Some(&Seen::Store("resolve")));
}

#[test]
fn a_leftover_of_a_recorded_control_is_claimed_too() {
    let mut session = Session {
        conf: Some("3277:0059 14:6".into()),
        claim: Some(vec![1, 3, 1]),
        ..session()
    };
    let mut world = World {
        current: vec![1, 3, 2],
        ..a_working_camera()
    };
    let mut mode = run_enable(&mut session, &mut world);
    assert_eq!(session.asked.last(), Some(&"claim"));
    assert!(mode.lit() && mode.owns_restore());
    assert_eq!(world.writes(), 0);
    restore(&mut mode, &mut world).expect("restore");
    assert_eq!(world.current, [1, 3, 1]);
}

#[test]
fn a_value_someone_else_set_is_not_claimed() {
    let mut world = World {
        current: vec![1, 3, 2],
        ..a_working_camera()
    };
    let write = applied(&mut world, &[1, 3, 2]);
    assert_eq!(write.outcome, Applied::AlreadyHeld);
    assert_eq!(write.hold, Hold::Lock, "no other guard lives, the lock is free");
    for (variable, conf) in [
        (Variable::Text("14:6:1,3,2".into()), None),
        (Variable::NotPresent, Some("3277:0059 14:6".to_string())),
    ] {
        let mut session = Session {
            variable,
            conf,
            ..session()
        };
        let mode = run_enable(&mut session, &mut world);
        assert!(session.asked.contains(&"claim"));
        assert!(mode.lit());
        assert!(!mode.owns_restore());
    }
    assert_eq!(world.writes(), 0);
}

// --- recovering --------------------------------------------------------------------------------

/// A pending record of a change from `original` to `attempted`.
#[derive(Clone)]
struct Pending {
    len: usize,
    original: Vec<u8>,
    attempted: Result<Vec<u8>, String>,
    mismatch: Option<Mismatch<String>>,
    counted: Result<AtomicWrite<String>, String>,
    mark: AttemptMark,
}

fn pending() -> Pending {
    Pending {
        len: 3,
        original: vec![1, 3, 1],
        attempted: Ok(vec![1, 3, 2]),
        mismatch: None,
        counted: Ok(AtomicWrite::Durable),
        mark: AttemptMark::opened(),
    }
}

fn run_recovery(record: &Pending, world: &mut World) -> RecoveryOutcome {
    run_marked_recovery(record, world).0
}

/// A pass, and the mark that the store holds behind it.
fn run_marked_recovery(record: &Pending, world: &mut World) -> (RecoveryOutcome, AttemptMark) {
    let mut pass = RecoveryPhase::new();
    let mut stored = record.mark.clone();
    while let Some(request) = pass.request() {
        let mark = record.mark.saved_for(&request);
        let reply = match request {
            RecoveryRequest::LockCamera => RecoveryReply::Locked(CameraLock::Held),
            RecoveryRequest::LoadRecord => RecoveryReply::Loaded(Situation::Mine(RecordFacts {
                unit: 14,
                selector: 6,
                len: record.len,
            })),
            RecoveryRequest::CheckRecord => RecoveryReply::Checked(record.mismatch.clone()),
            RecoveryRequest::Camera(request) => {
                assert_eq!(pass.control(), Some((14, 6)));
                RecoveryReply::Camera(world.ask(request))
            }
            RecoveryRequest::Decide {
                len,
                writable,
                current,
            } => {
                assert_eq!(len, record.len);
                RecoveryReply::Decided(if current == record.original {
                    RestoreDecision::AlreadyRestored
                } else if writable && Ok(&current) == record.attempted.as_ref() {
                    RestoreDecision::Write(record.original.clone())
                } else if writable && record.attempted.is_err() {
                    RestoreDecision::Write(record.original.clone())
                } else {
                    RestoreDecision::Refuse("not this run's value".into())
                })
            }
            RecoveryRequest::CountAttempt => {
                world.store("count");
                if record.counted.is_ok() {
                    stored = mark.expect("a count is saved");
                }
                RecoveryReply::Counted(record.counted.clone())
            }
            RecoveryRequest::DecodeAttempted => RecoveryReply::Decoded(record.attempted.clone()),
            RecoveryRequest::GiveBack => {
                let trouble = world.store("give back");
                if trouble.is_none() {
                    stored = mark.expect("the loaded mark is saved");
                }
                RecoveryReply::Stored(trouble)
            }
            RecoveryRequest::ClearRecord => RecoveryReply::Stored(world.store("clear")),
        };
        pass = pass.advance(reply);
    }
    (pass.outcome().expect("it ended"), stored)
}

#[test]
fn an_interrupted_change_is_counted_put_back_and_confirmed() {
    let mut world = World {
        current: vec![1, 3, 2],
        ..a_working_camera()
    };
    assert_eq!(
        run_recovery(&pending(), &mut world),
        RecoveryOutcome::Restored {
            unit: 14,
            selector: 6
        }
    );
    assert_eq!(
        world.log,
        [
            Seen::Len,
            Seen::Info,
            Seen::Get(ControlQuery::Current, 3),
            Seen::Store("count"),
            Seen::Get(ControlQuery::Current, 3),
            Seen::Wrote(vec![1, 3, 1]),
            Seen::Get(ControlQuery::Current, 3),
            Seen::Store("clear"),
        ]
    );
}

#[test]
fn recovery_asks_the_camera_its_length_before_reading_the_control() {
    let record = Pending {
        len: 64,
        original: vec![0; 64],
        attempted: Ok(vec![1; 64]),
        ..pending()
    };
    let mut world = a_working_camera();
    match run_recovery(&record, &mut world) {
        RecoveryOutcome::Unresolved(why) => assert_eq!(
            why,
            "the control is 3 bytes and the record was written when it was 64, so the recorded \
             bytes are not this control's value"
        ),
        other => panic!("{other:?}"),
    }
    assert_eq!(world.log, [Seen::Len]);
}

#[test]
fn a_control_changed_while_the_attempt_was_recorded_is_not_overwritten() {
    let mut world = World {
        current: vec![1, 3, 2],
        change_after_gets: Some((1, vec![1, 3, 3])),
        ..a_working_camera()
    };
    match run_recovery(&pending(), &mut world) {
        RecoveryOutcome::Unresolved(why) => assert_eq!(
            why,
            "the control changed while the attempt was being recorded: it holds [01, 03, 03], \
             not this run's value [01, 03, 02]; nothing was written"
        ),
        other => panic!("{other:?}"),
    }
    assert_eq!(world.writes(), 0);
    assert_eq!(world.gets_seen, 2);
    assert_eq!(world.log.last(), Some(&Seen::Store("give back")));
}

#[test]
fn a_refusal_that_writes_nothing_gives_the_attempt_back() {
    let mut world = World {
        current: vec![1, 3, 2],
        change_after_gets: Some((1, vec![1, 3, 3])),
        ..a_working_camera()
    };
    let (outcome, after) = run_marked_recovery(&pending(), &mut world);
    assert!(
        matches!(outcome, RecoveryOutcome::Unresolved(_)),
        "{outcome:?}"
    );
    assert_eq!(
        world.writes(),
        0,
        "nothing was written, so nothing should have been spent"
    );
    assert_eq!(
        after.restore_attempts, 0,
        "an attempt that wrote nothing must be given back"
    );
    assert!(world.position(&Seen::Store("count")) < world.position(&Seen::Store("give back")));
}

#[test]
fn a_new_record_records_no_owning_process() {
    let mark = AttemptMark::opened();
    assert_eq!(mark.pid, None, "a live pid would strand this record");
    assert_eq!(mark.boot_id, None);
    assert_eq!(mark.restore_attempts, 0);
    // A leftover of it can be acted on, and the camera that it is about is put back.
    let record = Pending { mark, ..pending() };
    let mut world = World {
        current: vec![1, 3, 2],
        ..a_working_camera()
    };
    assert_eq!(
        run_recovery(&record, &mut world),
        RecoveryOutcome::Restored {
            unit: 14,
            selector: 6
        }
    );
    assert_eq!(world.current, [1, 3, 1]);
}

#[test]
fn an_attempt_that_cannot_be_given_back_is_said_so() {
    let record = Pending {
        attempted: Err("odd length".into()),
        ..pending()
    };
    let mut world = World {
        current: vec![1, 3, 2],
        trouble: vec![("give back", "full")],
        ..a_working_camera()
    };
    let (outcome, after) = run_marked_recovery(&record, &mut world);
    assert_eq!(
        outcome,
        RecoveryOutcome::Unresolved(
            "attempted: odd length; and the unused attempt could not be given back (full)".into()
        )
    );
    assert_eq!(world.writes(), 0);
    assert_eq!(after.restore_attempts, 1, "the count stays");
}

#[test]
fn a_counted_attempt_is_one_more_without_an_owner() {
    let owned = AttemptMark {
        restore_attempts: 2,
        boot_id: Some("b00f".into()),
        pid: Some(41),
    };
    let counted = AttemptMark {
        restore_attempts: 3,
        boot_id: None,
        pid: None,
    };
    assert_eq!(owned.counted(), counted);
    assert_eq!(
        owned.saved_for(&RecoveryRequest::CountAttempt),
        Some(counted.clone())
    );
    assert_eq!(
        owned.saved_for(&RecoveryRequest::GiveBack),
        Some(owned.clone())
    );
    for request in [
        RecoveryRequest::LockCamera,
        RecoveryRequest::LoadRecord,
        RecoveryRequest::CheckRecord,
        RecoveryRequest::DecodeAttempted,
        RecoveryRequest::ClearRecord,
    ] {
        assert_eq!(owned.saved_for(&request), None);
    }
    // A write that went out is spent, and one that did not leaves the mark as it was.
    let record = Pending {
        mark: owned.clone(),
        ..pending()
    };
    let lit = || World {
        current: vec![1, 3, 2],
        ..a_working_camera()
    };
    let mut refusing = World {
        fail_set_from: Some((1, libc::EIO)),
        ..lit()
    };
    assert_eq!(run_marked_recovery(&record, &mut refusing).1, counted);
    assert_eq!(refusing.writes(), 1);
    let mut moved = World {
        change_after_gets: Some((1, vec![1, 3, 3])),
        ..lit()
    };
    assert_eq!(run_marked_recovery(&record, &mut moved).1, owned);
}

#[test]
fn an_uncounted_attempt_is_not_made() {
    for counted in [
        Ok(AtomicWrite::VisibleNotDurable("no space".to_string())),
        Err("disk full".to_string()),
    ] {
        let record = Pending {
            counted,
            ..pending()
        };
        let mut world = World {
            current: vec![1, 3, 2],
            ..a_working_camera()
        };
        assert!(matches!(
            run_recovery(&record, &mut world),
            RecoveryOutcome::Unresolved(why) if why.starts_with("count the attempt: ")
        ));
        assert_eq!(world.writes(), 0);
    }
}

#[test]
fn every_end_of_a_recovery_pass_is_reached() {
    let restored = |trouble: Vec<(&'static str, &'static str)>, current: Vec<u8>| World {
        current,
        trouble,
        ..a_working_camera()
    };
    assert_eq!(
        run_recovery(&pending(), &mut restored(vec![], vec![1, 3, 1])),
        RecoveryOutcome::AlreadyRestored
    );
    assert_eq!(
        run_recovery(
            &pending(),
            &mut restored(vec![("clear", "read-only")], vec![1, 3, 1])
        ),
        RecoveryOutcome::RestoredRecordKept("read-only".into())
    );
    assert_eq!(
        run_recovery(
            &pending(),
            &mut restored(vec![("clear", "read-only")], vec![1, 3, 2])
        ),
        RecoveryOutcome::RestoredRecordKept("read-only".into())
    );
    assert_eq!(
        run_recovery(&pending(), &mut restored(vec![], vec![9, 9, 9])),
        RecoveryOutcome::Unresolved("not this run's value".into())
    );
    for (mismatch, outcome) in [
        (Mismatch::DifferentCamera, RecoveryOutcome::ForAnotherCamera),
        (
            Mismatch::OwnerStillRunning { pid: 9 },
            RecoveryOutcome::OwnerStillRunning { pid: 9 },
        ),
        (
            Mismatch::OutOfAttempts { attempts: 3 },
            RecoveryOutcome::Unresolved(
                "3 attempts to put it back did not take, so no more will be made".into(),
            ),
        ),
        (
            Mismatch::UnsupportedSchema {
                found: 9,
                supported: 2,
            },
            RecoveryOutcome::Unresolved(
                "the record is schema 9 and this build implements 2".into(),
            ),
        ),
        (
            Mismatch::Malformed("hex".into()),
            RecoveryOutcome::Unresolved("malformed: hex".into()),
        ),
        (
            Mismatch::ControlNotPublished,
            RecoveryOutcome::Unresolved(
                "the record names a control this camera does not publish".into(),
            ),
        ),
    ] {
        let record = Pending {
            mismatch: Some(mismatch),
            ..pending()
        };
        let mut world = a_working_camera();
        assert_eq!(run_recovery(&record, &mut world), outcome);
        assert_eq!(world.log, []);
    }
    // A camera that takes the write and holds something else, or refuses it.
    let mut deaf = World {
        current: vec![1, 3, 2],
        change_after_gets: Some((9, vec![])),
        fail_set_from: Some((1, libc::EIO)),
        ..a_working_camera()
    };
    assert!(matches!(
        run_recovery(&pending(), &mut deaf),
        RecoveryOutcome::Unresolved(why) if why.starts_with("restore: camera did not answer (")
    ));
    let mut dead = World {
        fail_get_cur: Some(libc::EINVAL),
        ..a_working_camera()
    };
    assert_eq!(
        run_recovery(&pending(), &mut dead),
        RecoveryOutcome::Unresolved("read the control: control not supported".into())
    );
}

#[test]
fn a_locked_camera_is_not_queried_or_written() {
    let pass = RecoveryPhase::new().advance(RecoveryReply::Locked(CameraLock::Busy));
    assert_eq!(pass.request(), None);
    assert_eq!(pass.outcome(), Some(RecoveryOutcome::Busy));
}

#[test]
fn an_untakeable_lock_reports_unchecked_never_a_phantom_record() {
    let pass = RecoveryPhase::new()
        .advance(RecoveryReply::Locked(CameraLock::Failed("ENOTDIR".into())));
    let outcome = pass.outcome().expect("it ended");
    assert_eq!(
        outcome,
        RecoveryOutcome::Unchecked("lock the camera: ENOTDIR".into())
    );
    let msg = outcome.message("/store").expect("unchecked is loud");
    assert!(msg.contains("could not check"), "{msg}");
    assert!(!msg.contains("was left changed"), "{msg}");
    assert!(!msg.contains("recorded original"), "{msg}");
    assert!(!msg.contains("checks and recovers on its own"), "{msg}");
    assert!(!msg.contains("expected and harmless"), "{msg}");
    assert!(!outcome.permits_capture_write());
    assert!(outcome.blocks_discovery());
}

#[test]
fn a_record_of_another_port_is_reported_and_not_acted_on() {
    let elsewhere = |usb_devpath: &str| {
        RecoveryPhase::locked()
            .advance(RecoveryReply::Loaded(Situation::SameModelElsewhere {
                unit: 14,
                selector: 6,
                original: "010301".into(),
                usb_devpath: usb_devpath.into(),
            }))
            .outcome()
            .expect("it ended")
    };
    let unconfirmed = |recorded_at: &str| RecoveryOutcome::Unconfirmed {
        unit: 14,
        selector: 6,
        original: "010301".into(),
        recorded_at: recorded_at.into(),
    };
    assert_eq!(elsewhere("/usb3/3-5"), unconfirmed("/usb3/3-5"));
    assert_eq!(
        elsewhere(""),
        unconfirmed("a build that did not record which port it was on")
    );
}

// --- setting up --------------------------------------------------------------------------------

fn brightness(mean: f32) -> Brightness<String> {
    let reading = |value: f32| Reading::from_bits(f64::from(value).to_bits());
    Brightness {
        level: reading(mean),
        raised: reading(mean + 20.0),
        lowered: reading(mean - 20.0),
        shown: format!("{mean:.0}"),
    }
}

/// What a trial is told beside the camera's answers.
struct Script {
    means: Vec<Option<f32>>,
    guard: Vec<Option<&'static str>>,
    abort: bool,
}

fn lit_script() -> Script {
    Script {
        means: vec![Some(10.0), Some(90.0), Some(10.0)],
        guard: vec![None, None],
        abort: false,
    }
}

fn answer_trial(
    request: TrialRequest<Vec<u8>>,
    world: &mut World,
    script: &mut Script,
) -> TrialReply<Vec<u8>, String> {
    match request {
        TrialRequest::Camera(request) => TrialReply::Camera(world.ask(request)),
        TrialRequest::Measure => {
            let next = if script.means.is_empty() {
                None
            } else {
                script.means.remove(0)
            };
            TrialReply::Measured(next.map(brightness))
        }
        TrialRequest::CheckAbort => TrialReply::Abort(script.abort),
        TrialRequest::AskGuard => {
            world.log.push(Seen::Store("guard"));
            TrialReply::Guard(script.guard.remove(0).map(str::to_string))
        }
        TrialRequest::OpenRecord {
            original,
            attempted,
        } => {
            assert_eq!((original, attempted), (vec![1, 3, 1], vec![1, 3, 2]));
            TrialReply::Stored(world.store("open"))
        }
        TrialRequest::ClearRecord => TrialReply::Stored(world.store("clear")),
    }
}

fn run_trial(selector: u8, world: &mut World, script: &mut Script) -> TrialEnd<Vec<u8>, String> {
    let mut trial = Trial::new(selector);
    while let Some(request) = trial.request() {
        let owed = trial.undo();
        let reply = answer_trial(request, world, script);
        if owed.is_some() {
            assert_eq!(owed.as_deref(), Some(&[1, 3, 1][..]));
        }
        trial = trial.advance(reply);
    }
    match trial.phase {
        TrialPhase::Ended(end) => end,
        other => panic!("{other:?}"),
    }
}

#[test]
fn the_undo_record_is_on_disk_before_the_first_write() {
    let mut world = a_working_camera();
    let end = run_trial(6, &mut world, &mut lit_script());
    assert_eq!(
        end,
        TrialEnd::Lit {
            original: vec![1, 3, 1],
            wanted: vec![1, 3, 2]
        }
    );
    assert_eq!(
        world.log,
        [
            Seen::Info,
            Seen::Len,
            Seen::Get(ControlQuery::Current, 3),
            Seen::Get(ControlQuery::Default, 3),
            Seen::Get(ControlQuery::Maximum, 3),
            Seen::Store("open"),
            Seen::Get(ControlQuery::Current, 3),
            Seen::Store("guard"),
            Seen::Wrote(vec![1, 3, 2]),
            Seen::Wrote(vec![1, 3, 1]),
            Seen::Store("guard"),
            Seen::Wrote(vec![1, 3, 2]),
        ]
    );
}

#[test]
fn a_camera_that_refuses_a_restore_is_not_written_to_again() {
    let mut world = World {
        fail_set_from: Some((2, libc::EIO)),
        ..a_working_camera()
    };
    let mut script = Script {
        means: vec![Some(10.0)],
        ..lit_script()
    };
    assert_eq!(
        run_trial(6, &mut world, &mut script),
        TrialEnd::Restore(XuError::Unresponsive(libc::EIO))
    );
    assert_eq!(world.writes(), 2);
    assert_eq!(world.position(&Seen::Store("clear")), None);
}

#[test]
fn a_refused_first_write_produces_no_second_one() {
    let mut world = World {
        fail_set_from: Some((1, libc::EIO)),
        ..a_working_camera()
    };
    let mut script = Script {
        means: vec![Some(10.0)],
        ..lit_script()
    };
    assert!(matches!(
        run_trial(6, &mut world, &mut script),
        TrialEnd::Query(_)
    ));
    assert_eq!(world.writes(), 1);
    assert_eq!(world.current, [1, 3, 1]);
}

#[test]
fn an_abort_before_the_first_write_sends_the_camera_nothing() {
    let mut note = AbortNote::new();
    note.install();
    note.note(libc::SIGTERM);
    assert!(note.requested());
    let mut world = a_working_camera();
    let mut script = Script {
        means: vec![Some(10.0), Some(10.0), Some(10.0)],
        abort: note.requested(),
        ..lit_script()
    };
    assert_eq!(run_trial(6, &mut world, &mut script), TrialEnd::Measurement);
    assert_eq!(world.writes(), 0);
    assert_eq!(world.current, [1, 3, 1]);
}

#[test]
fn discovery_refuses_when_the_control_moved_while_it_was_measuring() {
    let mut world = World {
        change_after_gets: Some((1, vec![1, 3, 3])),
        ..a_working_camera()
    };
    let mut script = Script {
        means: vec![Some(50.0), Some(50.0), Some(50.0)],
        ..lit_script()
    };
    match run_trial(6, &mut world, &mut script) {
        TrialEnd::NotUsable(why) => assert_eq!(
            why.message(),
            "the control changed while setup was measuring: it held [01, 03, 01] when discovery \
             began and [01, 03, 03] immediately before the write, so something else is driving \
             it; nothing was sent"
        ),
        other => panic!("{other:?}"),
    }
    assert_eq!(world.writes(), 0);
    assert_eq!(world.current, [1, 3, 3]);
    assert!(world.gets_seen >= 2);
    assert_eq!(world.log.last(), Some(&Seen::Store("clear")));
}

#[test]
fn a_guard_refusal_before_the_first_write_sends_nothing() {
    let mut world = a_working_camera();
    let mut script = Script {
        means: vec![Some(50.0), Some(50.0), Some(50.0)],
        guard: vec![Some("the hardware privacy shutter is engaged")],
        ..lit_script()
    };
    let end = run_trial(6, &mut world, &mut script);
    assert!(
        matches!(&end, TrialEnd::Guard(why) if why.contains("engaged")),
        "{end:?}"
    );
    assert_eq!(world.writes(), 0);
    assert_eq!(world.current, [1, 3, 1]);
    assert_eq!(world.log.last(), Some(&Seen::Store("clear")));
}

#[test]
fn a_guard_refusal_before_the_final_write_leaves_the_control_restored() {
    let mut world = a_working_camera();
    let mut script = Script {
        means: vec![Some(10.0), Some(40.0), Some(10.0)],
        guard: vec![None, Some("the hardware privacy shutter is engaged")],
        ..lit_script()
    };
    let end = run_trial(6, &mut world, &mut script);
    assert!(
        matches!(&end, TrialEnd::Guard(why) if why.contains("engaged")),
        "{end:?}"
    );
    assert_eq!(world.writes(), 2);
    assert_eq!(world.current, [1, 3, 1]);
    assert_eq!(
        world.log[world.log.len() - 2..],
        [
            Seen::Get(ControlQuery::Current, 3),
            Seen::Store("clear")
        ]
    );
}

#[test]
fn a_brightness_that_does_not_follow_the_control_is_no_evidence() {
    let mut world = a_working_camera();
    let mut dim = Script {
        means: vec![Some(50.0), Some(52.0)],
        ..lit_script()
    };
    match run_trial(6, &mut world, &mut dim) {
        TrialEnd::NotUsable(why) => assert_eq!(
            why.message(),
            "the image did not brighten (before 50, after 52, needs +20)"
        ),
        other => panic!("{other:?}"),
    }
    assert_eq!(world.current, [1, 3, 1]);
    let mut stayed = Script {
        means: vec![Some(10.0), Some(90.0), Some(88.0)],
        ..lit_script()
    };
    match run_trial(6, &mut world, &mut stayed) {
        TrialEnd::NotUsable(why) => assert_eq!(
            why.message(),
            "the image brightened but stayed bright when the control was put back (10 before, 90 \
             with it set, 88 after undoing it), so the change did not come from this control"
        ),
        other => panic!("{other:?}"),
    }
    assert_eq!(world.current, [1, 3, 1]);
    // Exactly the lift is enough, in both directions.
    let mut exact = Script {
        means: vec![Some(10.0), Some(30.0), Some(9.0)],
        ..lit_script()
    };
    assert!(matches!(
        run_trial(6, &mut world, &mut exact),
        TrialEnd::Lit { .. }
    ));
}

#[test]
fn a_trial_that_cannot_record_writes_nothing() {
    let mut world = World {
        trouble: vec![("open", "read-only")],
        ..a_working_camera()
    };
    match run_trial(6, &mut world, &mut lit_script()) {
        TrialEnd::Journal(trouble) => assert_eq!(trouble.message_with(""), "read-only"),
        other => panic!("{other:?}"),
    }
    assert_eq!(world.writes(), 0);
    let mut silent = Script {
        means: vec![],
        ..lit_script()
    };
    assert_eq!(
        run_trial(6, &mut a_working_camera(), &mut silent),
        TrialEnd::Measurement
    );
    let mut held = World {
        current: vec![1, 3, 2],
        ..a_working_camera()
    };
    assert_eq!(
        run_trial(6, &mut held, &mut lit_script()),
        TrialEnd::AlreadyApplied
    );
    let mut disabled = World {
        info: 1,
        ..a_working_camera()
    };
    assert_eq!(
        run_trial(6, &mut disabled, &mut lit_script()),
        TrialEnd::NotUsable(Unusable::NotAccepted)
    );
}

fn run_discovery(
    id: CameraIdentity,
    lock: CameraLock<String>,
    pending: Situation<String>,
    world: &mut World,
    script: &mut Script,
) -> Result<Discovered, DiscoveryError> {
    let mut run = Discovery::new(id);
    while let Some(request) = run.request() {
        let reply = match request {
            DiscoveryRequest::LockCamera => DiscoveryReply::Locked(lock.clone()),
            DiscoveryRequest::Recovery(RecoveryRequest::LoadRecord) => {
                DiscoveryReply::Recovery(RecoveryReply::Loaded(pending.clone()))
            }
            DiscoveryRequest::Recovery(other) => panic!("{other:?}"),
            DiscoveryRequest::Trial(request) => {
                DiscoveryReply::Trial(answer_trial(request, world, script))
            }
        };
        run = run.advance(reply);
    }
    run.outcome().expect("it ended")
}

fn discovered(world: &mut World, script: &mut Script) -> Result<Discovered, DiscoveryError> {
    run_discovery(
        identity(0x3277, 0x0059),
        CameraLock::Held,
        Situation::Nothing,
        world,
        script,
    )
}

#[test]
fn discovery_finds_the_control_that_the_camera_documents() {
    let mut world = a_working_camera();
    let found = discovered(&mut world, &mut lit_script()).expect("lit");
    assert_eq!(found.control(), &ctrl(14, 6, vec![1, 3, 2]));
    assert_eq!(found.undo(), Some(vec![1, 3, 1]));
    assert_eq!(world.current, [1, 3, 2]);
}

#[test]
fn discovery_refuses_a_camera_with_no_microsoft_control_unit() {
    let mut vendor_only = identity(0x3277, 0x0059);
    vendor_only.interface_number = 0;
    vendor_only.units = vec![
        ExtensionUnit {
            unit_id: 4,
            microsoft: false,
            selectors: vec![10],
        },
        ExtensionUnit {
            unit_id: 7,
            microsoft: false,
            selectors: vec![],
        },
    ];
    let mut world = a_working_camera();
    let err = run_discovery(
        vendor_only,
        CameraLock::Held,
        Situation::Nothing,
        &mut world,
        &mut Script {
            means: vec![Some(0.0), Some(0.0), Some(0.0)],
            ..lit_script()
        },
    )
    .unwrap_err();
    assert_eq!(err, DiscoveryError::NoMicrosoftXu { seen: vec![4, 7] });
    assert_eq!(world.log, []);
}

#[test]
fn discovery_stops_for_a_busy_camera_and_an_unresolved_change() {
    let run = |lock, pending| {
        let mut world = a_working_camera();
        let err = run_discovery(
            identity(0x3277, 0x0059),
            lock,
            pending,
            &mut world,
            &mut lit_script(),
        )
        .unwrap_err();
        assert_eq!(world.log, []);
        err
    };
    assert_eq!(
        run(CameraLock::Busy, Situation::Nothing),
        DiscoveryError::CameraBusy
    );
    assert_eq!(
        run(CameraLock::Failed("EROFS".into()), Situation::Nothing),
        DiscoveryError::JournalUnwritable("EROFS".into())
    );
    assert_eq!(
        run(CameraLock::Held, Situation::Unreadable("EIO".into())),
        DiscoveryError::UnresolvedChange
    );
}

#[test]
fn discovery_says_what_it_tried() {
    let mut world = World {
        current: vec![1, 3, 2],
        ..a_working_camera()
    };
    assert_eq!(
        discovered(&mut world, &mut lit_script()).unwrap_err(),
        DiscoveryError::NoUsableControl {
            unit: 14,
            tried: vec![
                "selector 0x0a not advertised".into(),
                "selector 0x06 is already set to the value setup would apply".into(),
            ],
        }
    );
    let mut both = identity(0x3277, 0x0059);
    both.units[2].selectors = vec![6, 10];
    let mut world = World {
        info: 1,
        ..a_working_camera()
    };
    match run_discovery(
        both,
        CameraLock::Held,
        Situation::Nothing,
        &mut world,
        &mut lit_script(),
    ) {
        Err(DiscoveryError::NoUsableControl { tried, .. }) => {
            assert!(tried[0].starts_with("selector 0x0a: the camera reports"));
            assert!(tried[1].starts_with("selector 0x06: the camera reports"));
        }
        other => panic!("{other:?}"),
    }
}

#[test]
fn a_failed_trial_ends_the_whole_run() {
    let failing = |world: World, script: Script| {
        let (mut world, mut script) = (world, script);
        discovered(&mut world, &mut script).unwrap_err()
    };
    assert_eq!(
        failing(
            World {
                fail_get_cur: Some(libc::ETIMEDOUT),
                ..a_working_camera()
            },
            lit_script()
        ),
        DiscoveryError::Unresponsive {
            unit: 14,
            selector: 6,
            err: XuError::Unresponsive(libc::ETIMEDOUT)
        }
    );
    assert_eq!(
        failing(
            World {
                fail_set_from: Some((2, libc::EIO)),
                ..a_working_camera()
            },
            lit_script()
        ),
        DiscoveryError::RestoreFailed {
            unit: 14,
            selector: 6,
            err: XuError::Unresponsive(libc::EIO)
        }
    );
    assert_eq!(
        failing(
            a_working_camera(),
            Script {
                means: vec![],
                ..lit_script()
            }
        ),
        DiscoveryError::MeasurementFailed
    );
    assert_eq!(
        failing(
            a_working_camera(),
            Script {
                guard: vec![Some("shut")],
                ..lit_script()
            }
        ),
        DiscoveryError::WriteRefused("shut".into())
    );
}

// --- finishing ---------------------------------------------------------------------------------

fn run_finish(
    found: Discovered,
    world: &mut World,
    visible: Option<&str>,
) -> (Result<(), String>, Vec<String>) {
    let mut finish: Finish = found.finish(identity(0x3277, 0x0059));
    let mut saved = Vec::new();
    while let Some(request) = finish.request() {
        let reply = match request {
            FinishRequest::Camera(request) => FinishReply::Camera(world.ask(request)),
            FinishRequest::SaveConf(text) => {
                let trouble = world.store("conf");
                if trouble.is_none() {
                    saved.push(text);
                }
                FinishReply::Stored(trouble)
            }
            FinishRequest::ReadConf => FinishReply::Conf(visible.map(str::to_string)),
            FinishRequest::ClearRecord => FinishReply::Stored(world.store("clear")),
        };
        finish = finish.advance(reply);
    }
    (finish.outcome().expect("it ended"), saved)
}

fn a_lit_camera() -> (Discovered, World) {
    let found = Discovered::lit(ctrl(14, 6, vec![1, 3, 2]), vec![1, 3, 1]);
    let world = World {
        current: vec![1, 3, 2],
        ..a_working_camera()
    };
    (found, world)
}

#[test]
fn a_confirmed_application_publishes_the_config_and_drops_the_record() {
    let (found, mut world) = a_lit_camera();
    let (outcome, saved) = run_finish(found, &mut world, None);
    assert_eq!(outcome, Ok(()));
    assert_eq!(saved, ["3277:0059 14:6"]);
    assert_eq!(
        world.log,
        [
            Seen::Get(ControlQuery::Current, 3),
            Seen::Store("conf"),
            Seen::Store("clear"),
        ]
    );
}

#[test]
fn a_failed_verification_publishes_no_configuration() {
    let (found, mut world) = a_lit_camera();
    world.current = vec![1, 3, 3];
    let (outcome, saved) = run_finish(found, &mut world, None);
    assert_eq!(
        outcome,
        Err("the control reads [01, 03, 03] after being set to [01, 03, 02]".into())
    );
    assert!(saved.is_empty());
    assert_eq!(world.current, [1, 3, 1], "the control is put back");
}

#[test]
fn a_final_write_the_camera_did_not_take_keeps_the_undo_record() {
    let (mut found, _) = a_lit_camera();
    let err = found
        .confirm_applied(CameraReply::Bytes(vec![1, 3, 3]))
        .expect_err("an unconfirmed control must not be accepted");
    assert!(err.message().contains("[01, 03, 03]"));
    assert!(!found.pending.resolved);
    assert!(found.pending.exploratory_value_is_live);
    assert_eq!(found.undo(), Some(vec![1, 3, 1]));
    assert!(found.committed(Some("full".into())).is_err());
    assert!(!found.pending.resolved);
    assert!(found.committed(None).is_ok());
    assert_eq!(found.undo(), None);
}

#[test]
fn a_camera_that_stops_answering_during_verification_is_left_alone() {
    let (mut unanswered, _) = a_lit_camera();
    unanswered
        .confirm_applied(CameraReply::Failed(XuError::from_errno(libc::EIO)))
        .expect_err("a camera that will not answer cannot confirm anything");
    assert!(!unanswered.pending.exploratory_value_is_live);
    assert_eq!(unanswered.undo(), None);
    let (found, mut world) = a_lit_camera();
    world.fail_get_cur = Some(libc::EIO);
    let (outcome, saved) = run_finish(found, &mut world, None);
    let why = outcome.unwrap_err();
    assert!(why.starts_with("read the applied control back: camera did not answer ("));
    assert!(saved.is_empty());
    assert_eq!(world.log, [Seen::Get(ControlQuery::Current, 3)]);
}

#[test]
fn a_visible_config_after_a_failed_save_keeps_the_record() {
    let (found, mut world) = a_lit_camera();
    world.trouble = vec![("conf", "EACCES")];
    let (outcome, _) = run_finish(found, &mut world, Some("3277:0059 14:6"));
    assert_eq!(outcome, Err("save the emitter config: EACCES".into()));
    assert_eq!(world.writes(), 0);
    assert_eq!(world.position(&Seen::Store("clear")), None);
    // Where nothing became visible, the control is put back.
    let (found, _) = a_lit_camera();
    let (outcome, _) = run_finish(found, &mut world, None);
    assert_eq!(outcome, Err("save the emitter config: EACCES".into()));
    assert_eq!(world.current, [1, 3, 1]);
}

#[test]
fn a_record_that_cannot_be_removed_undoes_the_run() {
    let (found, mut world) = a_lit_camera();
    world.trouble = vec![("clear", "EIO")];
    let (outcome, saved) = run_finish(found, &mut world, None);
    assert_eq!(outcome, Err("EIO".into()));
    assert_eq!(saved.len(), 1);
    assert_eq!(world.current, [1, 3, 1]);
}

// --- undoing -----------------------------------------------------------------------------------

fn run_undo(owed: Option<Vec<u8>>, world: &mut World) -> UndoEnd {
    let mut undo = Undo::new(owed);
    while let Some(request) = undo.request() {
        let reply = match request {
            UndoRequest::Camera(request) => UndoReply::Camera(world.ask(request)),
            UndoRequest::ClearRecord => UndoReply::Cleared(world.store("clear").is_none()),
        };
        undo = undo.advance(reply);
    }
    undo.outcome().expect("it ended")
}

#[test]
fn the_record_is_cleared_only_behind_a_confirmed_read_back() {
    let (found, mut world) = a_lit_camera();
    assert_eq!(run_undo(found.undo(), &mut world), UndoEnd::Undone);
    assert_eq!(
        world.log,
        [
            Seen::Wrote(vec![1, 3, 1]),
            Seen::Get(ControlQuery::Current, 3),
            Seen::Store("clear"),
        ]
    );
    assert_eq!(world.current, [1, 3, 1]);
    // The camera took the write and reads as something else, or does not answer.
    for answer in [
        CameraReply::Bytes(vec![1, 3, 3]),
        CameraReply::Failed(XuError::from_errno(libc::EIO)),
    ] {
        let undo = Undo::new(Some(vec![1, 3, 1]))
            .advance(UndoReply::Camera(CameraReply::Accepted))
            .advance(UndoReply::Camera(answer));
        assert_eq!(undo.request(), None);
        assert_eq!(undo.outcome(), Some(UndoEnd::Unconfirmed));
    }
}

#[test]
fn a_refused_undo_is_not_tried_again() {
    let (found, mut world) = a_lit_camera();
    world.fail_set_from = Some((1, libc::EIO));
    assert_eq!(run_undo(found.undo(), &mut world), UndoEnd::Refused);
    assert_eq!(world.log, [Seen::Wrote(vec![1, 3, 1])]);
}

#[test]
fn an_undo_that_keeps_its_record_says_so() {
    let (found, mut world) = a_lit_camera();
    world.trouble = vec![("clear", "read-only")];
    assert_eq!(run_undo(found.undo(), &mut world), UndoEnd::RecordKept);
    assert_eq!(world.current, [1, 3, 1]);
}

#[test]
fn a_run_that_owes_nothing_is_not_undone() {
    let mut world = a_working_camera();
    assert_eq!(run_undo(None, &mut world), UndoEnd::NothingOwed);
    assert_eq!(world.log, []);
}

#[test]
fn a_caught_signal_is_noted_and_then_handed_back() {
    let mut note = AbortNote::new();
    // What an earlier run left is not this one's.
    note.note(libc::SIGTERM);
    note.install();
    assert!(!note.requested(), "nothing raised yet");
    note.note(libc::SIGINT);
    assert!(
        note.requested(),
        "the note must be there for the measurement loop to see"
    );
    assert_eq!(note.hand_back(), Some(libc::SIGINT));
    assert!(!note.requested(), "the note must not leak into the next run");
    assert_eq!(note.hand_back(), None);
}

// --- reporting ---------------------------------------------------------------------------------

#[test]
fn an_outcome_is_reported_once_per_camera_and_kind() {
    let mut reported = ReportedOutcomes::new();
    let unresolved = |why: &str| RecoveryOutcome::Unresolved(why.into());
    let first = reported.report("cam-a", &unresolved("one"), "/store");
    assert_eq!(first, unresolved("one").message("/store"));
    assert!(first.is_some());
    assert_eq!(reported.report("cam-a", &unresolved("two"), "/store"), None);
    assert!(reported
        .report("cam-b", &unresolved("two"), "/store")
        .is_some());
    assert!(reported
        .report("cam-a", &RecoveryOutcome::AlreadyRestored, "/store")
        .is_some());
    assert_eq!(
        reported.report("cam-a", &RecoveryOutcome::Busy, "/store"),
        None
    );
}
