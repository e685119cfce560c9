//! The session controller: the configuration of a terminal session and the
//! order in which a session is set up, drawn frame by frame, and torn down.
//!
//! The controller decides; it does not act. [`App::draw`] says which driver
//! primitives the next frame needs and how long to sleep after drawing. Once
//! the driver has accepted all of them the embedding program reports so with
//! [`App::started`], which is what keeps the one-time setup from being applied
//! again. [`App::exit`] says what restores the terminal.

use vstd::prelude::*;
use vstd::string::StringExecFns;
use crate::driver::{lemma_occurrences_concat, lemma_occurrences_one, occurrences, DriverOp};

verus! {

/// Whether the one-time setup of a session has been applied.
#[derive(Clone, Copy, Debug, PartialEq, Eq, Structural)]
pub enum Phase {
    /// No frame has been set up yet.
    NotStarted,
    /// The setup of a frame has been applied in full.
    Running,
}

/// The mathematical value of a session.
pub ghost struct Session {
    /// Frames are drawn on the alternate screen.
    pub alternate_screen: bool,
    /// The screen is cleared before each frame.
    pub clear: bool,
    /// Input is read in raw mode.
    pub raw_mode: bool,
    /// The cursor is hidden while frames are drawn.
    pub hide_cursor: bool,
    /// The target frame rate, at least 1.
    pub fps: nat,
    /// The phase of the session.
    pub phase: Phase,
}

/// What one frame needs: the driver primitives to perform before drawing, in
/// order, and the time to sleep after drawing.
#[derive(Debug, Clone, PartialEq, Eq)]
pub struct FramePlan {
    /// The primitives to perform before the frame is drawn.
    pub setup: Vec<DriverOp>,
    /// The milliseconds to sleep once the frame is drawn.
    pub sleep_ms: u64,
}

/// The frame rate that a requested rate results in: zero counts as one.
pub open spec fn effective_fps(fps: nat) -> nat {
    if fps == 0 {
        1
    } else {
        fps
    }
}

/// The milliseconds that a frame may take at the session's frame rate.
pub open spec fn frame_millis(s: Session) -> int {
    1000int / (s.fps as int)
}

/// The primitives that the next frame of `s` needs before it is drawn.
///
/// Every frame starts at the origin, sets the cursor's visibility, and clears
/// the screen where that is configured. Entering the alternate screen and
/// enabling raw mode are part of the first frame only.
pub open spec fn frame_setup(s: Session) -> Seq<DriverOp> {
    seq![DriverOp::MoveTo(0, 0)] + (if s.alternate_screen && s.phase == Phase::NotStarted {
        seq![DriverOp::EnterAlternateScreen]
    } else {
        Seq::<DriverOp>::empty()
    }) + (if s.raw_mode && s.phase == Phase::NotStarted {
        seq![DriverOp::EnableRawMode]
    } else {
        Seq::<DriverOp>::empty()
    }) + seq![
        if s.hide_cursor {
            DriverOp::HideCursor
        } else {
            DriverOp::ShowCursor
        },
    ] + (if s.clear {
        seq![DriverOp::ClearScreen]
    } else {
        Seq::<DriverOp>::empty()
    })
}

/// The primitives that end the session `s`.
///
/// The cursor returns to the origin and becomes visible and the alternate
/// screen is left, whatever the configuration. Raw mode is disabled where the
/// session was configured to use it.
pub open spec fn teardown(s: Session) -> Seq<DriverOp> {
    seq![DriverOp::MoveTo(0, 0), DriverOp::ShowCursor, DriverOp::LeaveAlternateScreen] + (
    if s.raw_mode {
        seq![DriverOp::DisableRawMode]
    } else {
        Seq::<DriverOp>::empty()
    })
}

/// The text of a flag.
pub open spec fn flag_text(flag: bool) -> Seq<char> {
    if flag {
        "true"@
    } else {
        "false"@
    }
}

/// The text that describes the configuration of `s`: the three flags of the
/// screen, then whether the cursor is shown or hidden.
pub open spec fn described(s: Session) -> Seq<char> {
    "NyanTerminal { alternate_screen: "@ + flag_text(s.alternate_screen) + ", clear: "@
        + flag_text(s.clear) + ", raw_mode: "@ + flag_text(s.raw_mode) + ", cursor: \""@ + (
    if s.hide_cursor {
        "Hide"@
    } else {
        "Show"@
    }) + "\" }"@
}

/// The session after the setup of a frame has been applied.
pub open spec fn after_setup(s: Session) -> Session {
    Session { phase: Phase::Running, ..s }
}

/// The text of a flag.
fn flag(on: bool) -> (text: &'static str)
    ensures
        text@ == flag_text(on),
{
    if on {
        "true"
    } else {
        "false"
    }
}

/// A terminal session: its configuration and its phase.
#[derive(Debug)]
pub struct App {
    alternatescreen: bool,
    clear: bool,
    rawmode: bool,
    cursor: bool,
    fps: u64,
    phase: Phase,
}

impl View for App {
    type V = Session;

    closed spec fn view(&self) -> Session {
        Session {
            alternate_screen: self.alternatescreen,
            clear: self.clear,
            raw_mode: self.rawmode,
            hide_cursor: self.cursor,
            fps: self.fps as nat,
            phase: self.phase,
        }
    }
}

impl App {
    #[verifier::type_invariant]
    spec fn positive_rate(self) -> bool {
        self.fps >= 1
    }

    /// A session at `fps` frames per second, with every option off. A rate of
    /// zero counts as one.
    pub fn new(fps: u64) -> (app: App)
        ensures
            app@ == (Session {
                alternate_screen: false,
                clear: false,
                raw_mode: false,
                hide_cursor: false,
                fps: effective_fps(fps as nat),
                phase: Phase::NotStarted,
            }),
    {
        App {
            alternatescreen: false,
            clear: false,
            rawmode: false,
            cursor: false,
            fps: if fps == 0 {
                1
            } else {
                fps
            },
            phase: Phase::NotStarted,
        }
    }

    /// Draws frames on the alternate screen.
    pub fn alternate_screen(self) -> (app: App)
        ensures
            app@ == (Session { alternate_screen: true, ..self@ }),
    {
        let mut nyan = self;
        proof {
            use_type_invariant(&nyan);
        }
        nyan.alternatescreen = true;
        nyan
    }

    /// Clears the screen before each frame.
    pub fn clear(self) -> (app: App)
        ensures
            app@ == (Session { clear: true, ..self@ }),
    {
        let mut nyan = self;
        proof {
            use_type_invariant(&nyan);
        }
        nyan.clear = true;
        nyan
    }

    /// Reads input in raw mode.
    pub fn raw_mode(self) -> (app: App)
        ensures
            app@ == (Session { raw_mode: true, ..self@ }),
    {
        let mut nyan = self;
        proof {
            use_type_invariant(&nyan);
        }
        nyan.rawmode = true;
        nyan
    }

    /// Hides the cursor while frames are drawn.
    pub fn hide_cursor(self) -> (app: App)
        ensures
            app@ == (Session { hide_cursor: true, ..self@ }),
    {
        let mut nyan = self;
        proof {
            use_type_invariant(&nyan);
        }
        nyan.cursor = true;
        nyan
    }

    /// Changes the frame rate. A rate of zero counts as one.
    pub fn fps(self, fps: u64) -> (app: App)
        ensures
            app@ == (Session { fps: effective_fps(fps as nat), ..self@ }),
    {
        let mut nyan = self;
        proof {
            use_type_invariant(&nyan);
        }
        nyan.fps = if fps == 0 {
            1
        } else {
            fps
        };
        nyan
    }

    /// Describes the configuration of this session, as in
    /// `NyanTerminal { alternate_screen: true, clear: false, raw_mode: true, cursor: "Hide" }`.
    pub fn describe(&self) -> (text: String)
        ensures
            text@ == described(self@),
    {
        let cursor_state = if self.cursor {
            "Hide"
        } else {
            "Show"
        };
        String::from_str("NyanTerminal { alternate_screen: ").concat(
            flag(self.alternatescreen),
        ).concat(", clear: ").concat(flag(self.clear)).concat(", raw_mode: ").concat(
            flag(self.rawmode),
        ).concat(", cursor: \"").concat(cursor_state).concat("\" }")
    }

    /// What the next frame needs: the primitives to perform before drawing and
    /// the time to sleep afterwards. The frame rate of a session is never
    /// zero, so the sleep is at most a second.
    pub fn draw(&self) -> (plan: FramePlan)
        ensures
            plan.setup@ == frame_setup(self@),
            plan.sleep_ms == frame_millis(self@),
            self@.fps >= 1,
    {
        proof {
            use_type_invariant(self);
        }
        let first = match self.phase {
            Phase::NotStarted => true,
            Phase::Running => false,
        };
        let mut setup: Vec<DriverOp> = Vec::new();
        setup.push(DriverOp::MoveTo(0, 0));
        if self.alternatescreen && first {
            setup.push(DriverOp::EnterAlternateScreen);
        }
        if self.rawmode && first {
            setup.push(DriverOp::EnableRawMode);
        }
        if !self.cursor {
            setup.push(DriverOp::ShowCursor);
        } else {
            setup.push(DriverOp::HideCursor);
        }
        if self.clear {
            setup.push(DriverOp::ClearScreen);
        }
        assert(setup@ =~= frame_setup(self@));
        FramePlan { setup, sleep_ms: 1000 / self.fps }
    }

    /// Records that the driver accepted every primitive of a frame's setup:
    /// the session is running, and later frames do not repeat the one-time
    /// setup. Where the driver refused a primitive this is not called, and the
    /// next frame attempts the setup again.
    pub fn started(&mut self)
        ensures
            final(self)@ == after_setup(old(self)@),
    {
        proof {
            use_type_invariant(&*self);
        }
        self.phase = Phase::Running;
    }

    /// Ends the session and says what restores the terminal.
    pub fn exit(self) -> (ops: Vec<DriverOp>)
        ensures
            ops@ == teardown(self@),
    {
        let mut ops: Vec<DriverOp> = Vec::new();
        ops.push(DriverOp::MoveTo(0, 0));
        ops.push(DriverOp::ShowCursor);
        ops.push(DriverOp::LeaveAlternateScreen);
        if self.rawmode {
            ops.push(DriverOp::DisableRawMode);
        }
        assert(ops@ =~= teardown(self@));
        ops
    }
}

/// How often `op` occurs in the setup of the next frame of `s`: the origin
/// move and the cursor's visibility once each, the clearing once where it is
/// configured, and the one-time setup once in the first frame and never after.
pub proof fn lemma_setup_occurrences(s: Session, op: DriverOp)
    ensures
        occurrences(frame_setup(s), op) == (if op == DriverOp::MoveTo(0, 0) {
            1nat
        } else if op == DriverOp::EnterAlternateScreen {
            if s.alternate_screen && s.phase == Phase::NotStarted {
                1nat
            } else {
                0nat
            }
        } else if op == DriverOp::EnableRawMode {
            if s.raw_mode && s.phase == Phase::NotStarted {
                1nat
            } else {
                0nat
            }
        } else if op == DriverOp::HideCursor {
            if s.hide_cursor {
                1nat
            } else {
                0nat
            }
        } else if op == DriverOp::ShowCursor {
            if s.hide_cursor {
                0nat
            } else {
                1nat
            }
        } else if op == DriverOp::ClearScreen {
            if s.clear {
                1nat
            } else {
                0nat
            }
        } else {
            0nat
        }),
{
    let origin = seq![DriverOp::MoveTo(0, 0)];
    let screen = if s.alternate_screen && s.phase == Phase::NotStarted {
        seq![DriverOp::EnterAlternateScreen]
    } else {
        Seq::<DriverOp>::empty()
    };
    let raw = if s.raw_mode && s.phase == Phase::NotStarted {
        seq![DriverOp::EnableRawMode]
    } else {
        Seq::<DriverOp>::empty()
    };
    let visibility = seq![
        if s.hide_cursor {
            DriverOp::HideCursor
        } else {
            DriverOp::ShowCursor
        },
    ];
    let clearing = if s.clear {
        seq![DriverOp::ClearScreen]
    } else {
        Seq::<DriverOp>::empty()
    };
    assert(frame_setup(s) == origin + screen + raw + visibility + clearing);
    lemma_occurrences_concat(origin + screen + raw + visibility, clearing, op);
    lemma_occurrences_concat(origin + screen + raw, visibility, op);
    lemma_occurrences_concat(origin + screen, raw, op);
    lemma_occurrences_concat(origin, screen, op);
    lemma_occurrences_one(DriverOp::MoveTo(0, 0), op);
    lemma_occurrences_one(DriverOp::EnterAlternateScreen, op);
    lemma_occurrences_one(DriverOp::EnableRawMode, op);
    lemma_occurrences_one(DriverOp::HideCursor, op);
    lemma_occurrences_one(DriverOp::ShowCursor, op);
    lemma_occurrences_one(DriverOp::ClearScreen, op);
}

/// How often `op` occurs in the teardown of `s`.
pub proof fn lemma_teardown_occurrences(s: Session, op: DriverOp)
    ensures
        occurrences(teardown(s), op) == (if op == DriverOp::MoveTo(0, 0) || op
            == DriverOp::ShowCursor || op == DriverOp::LeaveAlternateScreen {
            1nat
        } else if op == DriverOp::DisableRawMode {
            if s.raw_mode {
                1nat
            } else {
                0nat
            }
        } else {
            0nat
        }),
{
    let origin = seq![DriverOp::MoveTo(0, 0)];
    let show = seq![DriverOp::ShowCursor];
    let leave = seq![DriverOp::LeaveAlternateScreen];
    let raw = if s.raw_mode {
        seq![DriverOp::DisableRawMode]
    } else {
        Seq::<DriverOp>::empty()
    };
    assert(teardown(s) =~= origin + show + leave + raw);
    lemma_occurrences_concat(origin + show + leave, raw, op);
    lemma_occurrences_concat(origin + show, leave, op);
    lemma_occurrences_concat(origin, show, op);
    lemma_occurrences_one(DriverOp::MoveTo(0, 0), op);
    lemma_occurrences_one(DriverOp::ShowCursor, op);
    lemma_occurrences_one(DriverOp::LeaveAlternateScreen, op);
    lemma_occurrences_one(DriverOp::DisableRawMode, op);
}

/// The one-time setup is applied once. Over a first frame and the frame that
/// follows it, a session configured for raw mode enables raw mode exactly
/// once and one configured for the alternate screen enters it exactly once;
/// a session configured for neither does neither. The teardown of a session
/// configured for raw mode disables raw mode exactly once.
pub proof fn lemma_setup_applied_once(s: Session)
    requires
        s.phase == Phase::NotStarted,
    ensures
        occurrences(frame_setup(s) + frame_setup(after_setup(s)), DriverOp::EnableRawMode) == (
        if s.raw_mode {
            1nat
        } else {
            0nat
        }),
        occurrences(frame_setup(s) + frame_setup(after_setup(s)), DriverOp::EnterAlternateScreen)
            == (if s.alternate_screen {
            1nat
        } else {
            0nat
        }),
        occurrences(teardown(after_setup(after_setup(s))), DriverOp::DisableRawMode) == (
        if s.raw_mode {
            1nat
        } else {
            0nat
        }),
{
    let next = after_setup(s);
    lemma_occurrences_concat(frame_setup(s), frame_setup(next), DriverOp::EnableRawMode);
    lemma_occurrences_concat(frame_setup(s), frame_setup(next), DriverOp::EnterAlternateScreen);
    lemma_setup_occurrences(s, DriverOp::EnableRawMode);
    lemma_setup_occurrences(next, DriverOp::EnableRawMode);
    lemma_setup_occurrences(s, DriverOp::EnterAlternateScreen);
    lemma_setup_occurrences(next, DriverOp::EnterAlternateScreen);
    lemma_teardown_occurrences(after_setup(next), DriverOp::DisableRawMode);
}

/// Once a session runs, every later frame has the same setup, and it holds
/// no one-time primitive.
pub proof fn lemma_running_setup_is_stable(s: Session)
    requires
        s.phase == Phase::Running,
    ensures
        after_setup(s) == s,
        occurrences(frame_setup(s), DriverOp::EnableRawMode) == 0,
        occurrences(frame_setup(s), DriverOp::EnterAlternateScreen) == 0,
{
    lemma_setup_occurrences(s, DriverOp::EnableRawMode);
    lemma_setup_occurrences(s, DriverOp::EnterAlternateScreen);
}

/// A requested rate of zero gives the frame budget of a rate of one, and the
/// budget of any session is 1000 milliseconds divided by its rate.
pub proof fn lemma_frame_budget(s: Session, fps: nat)
    requires
        s.fps == effective_fps(fps),
    ensures
        s.fps >= 1,
        effective_fps(0) == effective_fps(1),
        frame_millis(s) == 1000int / (if fps == 0 {
            1int
        } else {
            fps as int
        }),
        0 <= frame_millis(s) <= 1000,
{
    assert(0 <= 1000int / (s.fps as int) <= 1000) by (nonlinear_arith)
        requires
            s.fps >= 1,
    ;
}

} // verus!
