//! State of the region-by-region generation dashboard: the status of each
//! region, the bytes written for each sealed region against the project
//! quota, the log, and how the controller reacts to the generator's signals
//! and to keyboard input.

use vstd::prelude::*;
use crate::coord_map::CoordMap;

verus! {

/// Disk quota of a project: 180 GiB.
pub const MAX_PROJECT_QUOTA_BYTES: u64 = 193273528320;

/// Number of log lines above which the oldest ones are dropped.
pub const LOG_CAPACITY: usize = 100;

/// Number of oldest log lines dropped at once.
pub const LOG_DROP: usize = 50;

/// Distance in regions beyond which the camera jumps to the region in work.
pub const CAMERA_FOLLOW_DISTANCE: i64 = 30;

/// Status line while no generation runs.
pub const IDLE_STATUS: &'static str = "SISTEMA OPERANTE. AGUARDANDO DIRETRIZ.";

/// Status of one region of 512 x 512 blocks.
#[derive(Clone, Copy, PartialEq, Eq, Structural, Debug)]
pub enum RegionStatus {
    Processing,
    Cached,
    Sealed,
    Corrupted,
    Empty,
}

/// What the generator reports to the dashboard.
pub enum BesmSignal {
    RegionCached(i32, i32),
    RegionProcessing(i32, i32),
    RegionSealed(i32, i32, u64),
    RegionFailed(i32, i32),
    RegionEmpty(i32, i32),
    GenerationComplete,
    Log(String),
}

// ---------------------------------------------------------------------------
// Dashboard state.
// ---------------------------------------------------------------------------

/// The log after `msg` is appended: once it holds more than `LOG_CAPACITY`
/// lines, the oldest `LOG_DROP` lines go.
pub open spec fn log_after_push(log: Seq<String>, msg: String) -> Seq<String> {
    let l = log.push(msg);
    if l.len() > LOG_CAPACITY {
        l.subrange(LOG_DROP as int, l.len() as int)
    } else {
        l
    }
}

/// A log of at most `LOG_CAPACITY` lines stays so after a push, and its
/// last line is the one pushed.
pub proof fn lemma_log_stays_bounded(log: Seq<String>, msg: String)
    requires
        log.len() <= LOG_CAPACITY,
    ensures
        log_after_push(log, msg).len() <= LOG_CAPACITY,
        log_after_push(log, msg).len() > 0,
        log_after_push(log, msg).last() == msg,
{
}

/// State shared between the dashboard and the generation it drives.
pub struct SharedDashboardState {
    pub regions_map: CoordMap<RegionStatus>,
    pub regions_bytes: CoordMap<u64>,
    pub accumulated_bytes_written: u64,
    pub log_buffer: Vec<String>,
    pub is_generating: bool,
    pub status_msg: String,
}

impl SharedDashboardState {
    /// The byte counter is the sum of the bytes recorded per sealed region.
    pub open spec fn counts_sealed_bytes(&self) -> bool {
        self.accumulated_bytes_written == self.regions_bytes.total()
    }

    /// No region known, nothing written, an empty log, idle.
    pub fn new() -> (s: Self)
        ensures
            s.regions_map@ == Map::<(i32, i32), RegionStatus>::empty(),
            s.regions_bytes@ == Map::<(i32, i32), u64>::empty(),
            s.accumulated_bytes_written == 0,
            s.log_buffer@.len() == 0,
            !s.is_generating,
            s.status_msg@ == IDLE_STATUS@,
            s.counts_sealed_bytes(),
    {
        let regions_bytes: CoordMap<u64> = CoordMap::new();
        proof {
            regions_bytes.lemma_total_empty();
        }
        SharedDashboardState {
            regions_map: CoordMap::new(),
            regions_bytes,
            accumulated_bytes_written: 0,
            log_buffer: Vec::new(),
            is_generating: false,
            status_msg: IDLE_STATUS.to_owned(),
        }
    }

    /// Appends `msg` to the log, dropping the oldest `LOG_DROP` lines once the
    /// log holds more than `LOG_CAPACITY`.
    pub fn push_log(&mut self, msg: String)
        ensures
            final(self).log_buffer@ == log_after_push(old(self).log_buffer@, msg),
            final(self).regions_map@ == old(self).regions_map@,
            final(self).regions_bytes == old(self).regions_bytes,
            final(self).accumulated_bytes_written == old(self).accumulated_bytes_written,
            final(self).is_generating == old(self).is_generating,
            final(self).status_msg == old(self).status_msg,
    {
        self.log_buffer.push(msg);
        if self.log_buffer.len() > LOG_CAPACITY {
            let kept = self.log_buffer.split_off(LOG_DROP);
            self.log_buffer = kept;
        }
    }

    /// Records that region `(x, z)` was sealed with `bytes` bytes on disk:
    /// its status becomes `Sealed` and its bytes replace those recorded
    /// before. Returns whether the project quota is reached.
    pub fn record_sealed(&mut self, x: i32, z: i32, bytes: u64) -> (quota_reached: bool)
        requires
            old(self).counts_sealed_bytes(),
            old(self).accumulated_bytes_written - (if old(self).regions_bytes@.contains_key(
                (x, z),
            ) {
                old(self).regions_bytes@[(x, z)] as int
            } else {
                0
            }) + bytes <= u64::MAX,
        ensures
            final(self).regions_map@ == old(self).regions_map@.insert((x, z), RegionStatus::Sealed),
            final(self).regions_bytes@ == old(self).regions_bytes@.insert((x, z), bytes),
            final(self).accumulated_bytes_written == old(self).accumulated_bytes_written - (if old(
                self,
            ).regions_bytes@.contains_key((x, z)) {
                old(self).regions_bytes@[(x, z)] as int
            } else {
                0
            }) + bytes,
            final(self).counts_sealed_bytes(),
            quota_reached == (final(self).accumulated_bytes_written >= MAX_PROJECT_QUOTA_BYTES),
            final(self).log_buffer == old(self).log_buffer,
            final(self).is_generating == old(self).is_generating,
            final(self).status_msg == old(self).status_msg,
    {
        self.regions_map.insert((x, z), RegionStatus::Sealed);
        let old_bytes = match self.regions_bytes.insert_counted((x, z), bytes) {
            Some(b) => b,
            None => 0,
        };
        self.accumulated_bytes_written = self.accumulated_bytes_written - old_bytes;
        self.accumulated_bytes_written = self.accumulated_bytes_written + bytes;
        self.accumulated_bytes_written >= MAX_PROJECT_QUOTA_BYTES
    }

    /// The status shown for region `(x, z)`: `Empty` where none is known.
    pub fn status_at(&self, x: i32, z: i32) -> (st: RegionStatus)
        ensures
            st == (if self.regions_map@.contains_key((x, z)) {
                self.regions_map@[(x, z)]
            } else {
                RegionStatus::Empty
            }),
    {
        match self.regions_map.get((x, z)) {
            Some(st) => st,
            None => RegionStatus::Empty,
        }
    }
}


// ---------------------------------------------------------------------------
// The controller.
// ---------------------------------------------------------------------------

/// The character of a decimal digit.
pub open spec fn digit_char(d: int) -> char {
    if d == 0 {
        '0'
    } else if d == 1 {
        '1'
    } else if d == 2 {
        '2'
    } else if d == 3 {
        '3'
    } else if d == 4 {
        '4'
    } else if d == 5 {
        '5'
    } else if d == 6 {
        '6'
    } else if d == 7 {
        '7'
    } else if d == 8 {
        '8'
    } else {
        '9'
    }
}

/// The decimal digits of a natural number, without leading zeros.
pub open spec fn nat_digits(n: nat) -> Seq<char>
    decreases n,
{
    if n < 10 {
        seq![digit_char(n as int)]
    } else {
        nat_digits((n / 10) as nat).push(digit_char((n % 10) as int))
    }
}

/// An integer in decimal, with a minus sign when negative.
pub open spec fn decimal(v: int) -> Seq<char> {
    if v < 0 {
        seq!['-'] + nat_digits((-v) as nat)
    } else {
        nat_digits(v as nat)
    }
}

/// The status line while region `(x, z)` is scanned:
/// `VARREDURA: r.<x>.<z>`.
pub open spec fn spec_scan_status(x: i32, z: i32) -> Seq<char> {
    seq!['V', 'A', 'R', 'R', 'E', 'D', 'U', 'R', 'A', ':', ' ', 'r', '.'] + decimal(x as int)
        + seq!['.'] + decimal(z as int)
}

fn digit_of(d: u64) -> (c: char)
    requires
        d < 10,
    ensures
        c == digit_char(d as int),
{
    if d == 0 {
        '0'
    } else if d == 1 {
        '1'
    } else if d == 2 {
        '2'
    } else if d == 3 {
        '3'
    } else if d == 4 {
        '4'
    } else if d == 5 {
        '5'
    } else if d == 6 {
        '6'
    } else if d == 7 {
        '7'
    } else if d == 8 {
        '8'
    } else {
        '9'
    }
}

fn push_digits(n: u64, out: &mut Vec<char>)
    ensures
        final(out)@ == old(out)@ + nat_digits(n as nat),
    decreases n,
{
    if n < 10 {
        out.push(digit_of(n));
        assert(final(out)@ =~= old(out)@ + nat_digits(n as nat)) by {
        }
    } else {
        push_digits(n / 10, out);
        out.push(digit_of(n % 10));
        assert(nat_digits(n as nat) == nat_digits((n / 10) as nat).push(digit_char((n % 10) as int)));
    }
}

fn push_decimal(v: i32, out: &mut Vec<char>)
    ensures
        final(out)@ == old(out)@ + decimal(v as int),
{
    if v < 0 {
        out.push('-');
        let n: u64 = (-(v as i64)) as u64;
        push_digits(n, out);
    } else {
        push_digits(v as u64, out);
    }
}

/// The status line while region `(x, z)` is scanned.
fn scan_status(x: i32, z: i32) -> (s: String)
    ensures
        s@ == spec_scan_status(x, z),
{
    let mut v: Vec<char> = vec!['V', 'A', 'R', 'R', 'E', 'D', 'U', 'R', 'A', ':', ' ', 'r', '.'];
    push_decimal(x, &mut v);
    v.push('.');
    push_decimal(z, &mut v);
    string_from_chars(&v)
}

/// `String` from its characters (`FromIterator<char>`).
#[verifier::external_body]
fn string_from_chars(chars: &Vec<char>) -> (s: String)
    ensures
        s@ == chars@,
{
    chars.iter().collect()
}

/// Keyboard input as the shell reads it.
pub enum UserInput {
    /// A typed key: a character, `"\n"` for Enter or `"BACKSPACE"`.
    Command(String),
    MoveCamera(i32, i32),
    Quit,
}

/// What the caller of `handle_signal` has to do next.
#[derive(Clone, Copy, PartialEq, Eq, Structural, Debug)]
pub enum SignalAction {
    Continue,
    /// The quota is reached: abort the generation and log it.
    AbortForQuota,
    /// The generation ended with sealed regions not yet written to the manifest.
    FlushManifest,
}

/// What the caller of `handle_input` has to do next.
#[derive(PartialEq, Eq, Debug)]
pub enum InputAction {
    Continue,
    /// Quit: abort the generation and leave the shell.
    Quit,
    /// A key while a generation runs: refused, to be logged.
    Refused,
    /// Enter: run this command line.
    Execute(String),
}

/// A command line, read against the list of preset commands.
#[derive(Clone, Copy, PartialEq, Eq, Structural, Debug)]
pub enum Directive {
    /// Leave the program.
    Exit,
    /// Generate the preset at this index.
    Generate(usize),
    /// Not a known command: to be logged.
    Unknown,
    /// An empty line: nothing.
    Nothing,
}

/// Whether the camera jumps to region `(x, z)`: when it is more than
/// `CAMERA_FOLLOW_DISTANCE` regions away on either axis.
pub open spec fn camera_follows(camera_x: i32, camera_z: i32, x: i32, z: i32) -> bool {
    (if x - camera_x >= 0 { x - camera_x } else { camera_x - x }) > CAMERA_FOLLOW_DISTANCE || (if z
        - camera_z >= 0 {
        z - camera_z
    } else {
        camera_z - z
    }) > CAMERA_FOLLOW_DISTANCE
}

/// The interactive controller: dashboard state, camera and command line.
pub struct MasterControl {
    state: SharedDashboardState,
    camera_x: i32,
    camera_z: i32,
    current_typing: Vec<char>,
    manifest_needs_update: bool,
}

impl MasterControl {
    pub closed spec fn spec_state(&self) -> SharedDashboardState {
        self.state
    }

    pub closed spec fn spec_camera(&self) -> (i32, i32) {
        (self.camera_x, self.camera_z)
    }

    pub closed spec fn spec_typing(&self) -> Seq<char> {
        self.current_typing@
    }

    pub closed spec fn spec_manifest_dirty(&self) -> bool {
        self.manifest_needs_update
    }

    /// The controller's invariant: the byte counter matches the regions.
    pub open spec fn wf(&self) -> bool {
        self.spec_state().counts_sealed_bytes()
    }

    /// A controller over `state`, camera at the origin, empty command line.
    pub fn new(state: SharedDashboardState) -> (c: Self)
        ensures
            c.spec_state() == state,
            c.spec_camera() == (0i32, 0i32),
            c.spec_typing().len() == 0,
            !c.spec_manifest_dirty(),
    {
        MasterControl {
            state,
            camera_x: 0,
            camera_z: 0,
            current_typing: Vec::new(),
            manifest_needs_update: false,
        }
    }

    /// The dashboard state.
    pub fn state(&self) -> (s: &SharedDashboardState)
        ensures
            *s == self.spec_state(),
    {
        &self.state
    }

    /// The camera position, in regions.
    pub fn camera(&self) -> (c: (i32, i32))
        ensures
            c == self.spec_camera(),
    {
        (self.camera_x, self.camera_z)
    }

    /// Appends a line to the log.
    pub fn push_log(&mut self, msg: String)
        ensures
            final(self).spec_state().log_buffer@ == log_after_push(
                old(self).spec_state().log_buffer@,
                msg,
            ),
            final(self).spec_state().regions_map@ == old(self).spec_state().regions_map@,
            final(self).spec_state().regions_bytes == old(self).spec_state().regions_bytes,
            final(self).spec_state().accumulated_bytes_written == old(
                self,
            ).spec_state().accumulated_bytes_written,
            final(self).spec_state().is_generating == old(self).spec_state().is_generating,
            final(self).spec_camera() == old(self).spec_camera(),
            final(self).spec_typing() == old(self).spec_typing(),
            final(self).spec_manifest_dirty() == old(self).spec_manifest_dirty(),
    {
        self.state.push_log(msg);
    }

    /// Marks a generation as started, with `status` as the status line.
    pub fn start_generation(&mut self, status: String)
        ensures
            final(self).spec_state().is_generating,
            final(self).spec_state().status_msg == status,
            final(self).spec_state().regions_map@ == old(self).spec_state().regions_map@,
            final(self).spec_state().regions_bytes == old(self).spec_state().regions_bytes,
            final(self).spec_state().accumulated_bytes_written == old(
                self,
            ).spec_state().accumulated_bytes_written,
            final(self).spec_state().log_buffer == old(self).spec_state().log_buffer,
            final(self).spec_camera() == old(self).spec_camera(),
            final(self).spec_manifest_dirty() == old(self).spec_manifest_dirty(),
    {
        self.state.is_generating = true;
        self.state.status_msg = status;
    }

    /// Applies one signal of the generator to the dashboard.
    pub fn handle_signal(&mut self, signal: BesmSignal) -> (a: SignalAction)
        requires
            old(self).wf(),
            signal matches BesmSignal::RegionSealed(x, z, bytes) ==> old(
                self,
            ).spec_state().accumulated_bytes_written - (if old(
                self,
            ).spec_state().regions_bytes@.contains_key((x, z)) {
                old(self).spec_state().regions_bytes@[(x, z)] as int
            } else {
                0
            }) + bytes <= u64::MAX,
        ensures
            final(self).wf(),
            match signal {
                BesmSignal::RegionProcessing(x, z) => {
                    &&& final(self).spec_state().regions_map@ == old(
                        self,
                    ).spec_state().regions_map@.insert((x, z), RegionStatus::Processing)
                    &&& final(self).spec_state().status_msg@ == spec_scan_status(x, z)
                    &&& final(self).spec_camera() == (if camera_follows(
                        old(self).spec_camera().0,
                        old(self).spec_camera().1,
                        x,
                        z,
                    ) {
                        (x, z)
                    } else {
                        old(self).spec_camera()
                    })
                    &&& final(self).spec_state().regions_bytes == old(self).spec_state().regions_bytes
                    &&& final(self).spec_manifest_dirty() == old(self).spec_manifest_dirty()
                    &&& a == SignalAction::Continue
                },
                BesmSignal::RegionSealed(x, z, bytes) => {
                    &&& final(self).spec_state().regions_map@ == old(
                        self,
                    ).spec_state().regions_map@.insert((x, z), RegionStatus::Sealed)
                    &&& final(self).spec_state().regions_bytes@ == old(
                        self,
                    ).spec_state().regions_bytes@.insert((x, z), bytes)
                    &&& final(self).spec_state().accumulated_bytes_written == old(
                        self,
                    ).spec_state().accumulated_bytes_written - (if old(
                        self,
                    ).spec_state().regions_bytes@.contains_key((x, z)) {
                        old(self).spec_state().regions_bytes@[(x, z)] as int
                    } else {
                        0
                    }) + bytes
                    &&& final(self).spec_manifest_dirty()
                    &&& final(self).spec_camera() == old(self).spec_camera()
                    &&& a == (if final(self).spec_state().accumulated_bytes_written
                        >= MAX_PROJECT_QUOTA_BYTES {
                        SignalAction::AbortForQuota
                    } else {
                        SignalAction::Continue
                    })
                },
                BesmSignal::RegionFailed(x, z) => {
                    &&& final(self).spec_state().regions_map@ == old(
                        self,
                    ).spec_state().regions_map@.insert((x, z), RegionStatus::Corrupted)
                    &&& final(self).spec_state().regions_bytes == old(self).spec_state().regions_bytes
                    &&& a == SignalAction::Continue
                },
                BesmSignal::RegionEmpty(x, z) => {
                    &&& final(self).spec_state().regions_map@ == old(
                        self,
                    ).spec_state().regions_map@.insert((x, z), RegionStatus::Empty)
                    &&& final(self).spec_state().regions_bytes == old(self).spec_state().regions_bytes
                    &&& a == SignalAction::Continue
                },
                BesmSignal::RegionCached(x, z) => {
                    &&& final(self).spec_state().regions_map@ == old(
                        self,
                    ).spec_state().regions_map@.insert((x, z), RegionStatus::Cached)
                    &&& final(self).spec_state().regions_bytes == old(self).spec_state().regions_bytes
                    &&& a == SignalAction::Continue
                },
                BesmSignal::Log(msg) => {
                    &&& final(self).spec_state().log_buffer@ == log_after_push(
                        old(self).spec_state().log_buffer@,
                        msg,
                    )
                    &&& final(self).spec_state().regions_map@ == old(self).spec_state().regions_map@
                    &&& final(self).spec_state().regions_bytes == old(self).spec_state().regions_bytes
                    &&& a == SignalAction::Continue
                },
                BesmSignal::GenerationComplete => {
                    &&& !final(self).spec_state().is_generating
                    &&& final(self).spec_state().status_msg@ == IDLE_STATUS@
                    &&& !final(self).spec_manifest_dirty()
                    &&& final(self).spec_state().regions_map@ == old(self).spec_state().regions_map@
                    &&& final(self).spec_state().regions_bytes == old(self).spec_state().regions_bytes
                    &&& a == (if old(self).spec_manifest_dirty() {
                        SignalAction::FlushManifest
                    } else {
                        SignalAction::Continue
                    })
                },
            },
    {
        match signal {
            BesmSignal::RegionProcessing(x, z) => {
                self.state.regions_map.insert((x, z), RegionStatus::Processing);
                self.state.status_msg = scan_status(x, z);
                let dx: i64 = x as i64 - self.camera_x as i64;
                let dz: i64 = z as i64 - self.camera_z as i64;
                let adx: i64 = if dx >= 0 { dx } else { -dx };
                let adz: i64 = if dz >= 0 { dz } else { -dz };
                if adx > CAMERA_FOLLOW_DISTANCE || adz > CAMERA_FOLLOW_DISTANCE {
                    self.camera_x = x;
                    self.camera_z = z;
                }
                SignalAction::Continue
            },
            BesmSignal::RegionSealed(x, z, bytes) => {
                let reached = self.state.record_sealed(x, z, bytes);
                self.manifest_needs_update = true;
                if reached {
                    SignalAction::AbortForQuota
                } else {
                    SignalAction::Continue
                }
            },
            BesmSignal::RegionFailed(x, z) => {
                self.state.regions_map.insert((x, z), RegionStatus::Corrupted);
                SignalAction::Continue
            },
            BesmSignal::RegionEmpty(x, z) => {
                self.state.regions_map.insert((x, z), RegionStatus::Empty);
                SignalAction::Continue
            },
            BesmSignal::RegionCached(x, z) => {
                self.state.regions_map.insert((x, z), RegionStatus::Cached);
                SignalAction::Continue
            },
            BesmSignal::Log(msg) => {
                self.state.push_log(msg);
                SignalAction::Continue
            },
            BesmSignal::GenerationComplete => {
                self.state.is_generating = false;
                self.state.status_msg = IDLE_STATUS.to_owned();
                if self.manifest_needs_update {
                    self.manifest_needs_update = false;
                    SignalAction::FlushManifest
                } else {
                    SignalAction::Continue
                }
            },
        }
    }

    /// Applies one key or command of the user.
    pub fn handle_input(&mut self, input: UserInput) -> (a: InputAction)
        requires
            input matches UserInput::MoveCamera(dx, dz) ==> {
                &&& i32::MIN <= 2 * dx <= i32::MAX
                &&& i32::MIN <= 2 * dz <= i32::MAX
                &&& i32::MIN <= old(self).spec_camera().0 + 2 * dx <= i32::MAX
                &&& i32::MIN <= old(self).spec_camera().1 + 2 * dz <= i32::MAX
            },
        ensures
            final(self).spec_state() == old(self).spec_state(),
            final(self).spec_manifest_dirty() == old(self).spec_manifest_dirty(),
            match input {
                UserInput::Quit => {
                    &&& a == InputAction::Quit
                    &&& final(self).spec_camera() == old(self).spec_camera()
                    &&& final(self).spec_typing() == old(self).spec_typing()
                },
                UserInput::MoveCamera(dx, dz) => {
                    &&& a == InputAction::Continue
                    &&& final(self).spec_camera().0 == old(self).spec_camera().0 + 2 * dx
                    &&& final(self).spec_camera().1 == old(self).spec_camera().1 + 2 * dz
                    &&& final(self).spec_typing() == old(self).spec_typing()
                },
                UserInput::Command(key) => {
                    &&& final(self).spec_camera() == old(self).spec_camera()
                    &&& if old(self).spec_state().is_generating {
                        &&& a == InputAction::Refused
                        &&& final(self).spec_typing() == old(self).spec_typing()
                    } else if key@ == "\n"@ {
                        &&& a matches InputAction::Execute(line) && line@ == old(self).spec_typing()
                        &&& final(self).spec_typing().len() == 0
                    } else if key@ == "BACKSPACE"@ {
                        &&& a == InputAction::Continue
                        &&& final(self).spec_typing() == (if old(self).spec_typing().len() > 0 {
                            old(self).spec_typing().drop_last()
                        } else {
                            old(self).spec_typing()
                        })
                    } else {
                        &&& a == InputAction::Continue
                        &&& final(self).spec_typing() == old(self).spec_typing() + key@
                    }
                },
            },
    {
        match input {
            UserInput::Quit => InputAction::Quit,
            UserInput::MoveCamera(dx, dz) => {
                self.camera_x = self.camera_x + dx * 2;
                self.camera_z = self.camera_z + dz * 2;
                InputAction::Continue
            },
            UserInput::Command(key) => {
                if self.state.is_generating {
                    return InputAction::Refused;
                }
                if crate::text::str_eq(key.as_str(), "\n") {
                    let line = string_from_chars(&self.current_typing);
                    self.current_typing = Vec::new();
                    InputAction::Execute(line)
                } else if crate::text::str_eq(key.as_str(), "BACKSPACE") {
                    self.current_typing.pop();
                    InputAction::Continue
                } else {
                    let ghost before = self.current_typing@;
                    let n = key.as_str().unicode_len();
                    let mut i: usize = 0;
                    while i < n
                        invariant
                            n == key@.len(),
                            0 <= i <= n,
                            self.current_typing@ == before + key@.subrange(0, i as int),
                            self.state == old(self).state,
                            self.camera_x == old(self).camera_x,
                            self.camera_z == old(self).camera_z,
                            self.manifest_needs_update == old(self).manifest_needs_update,
                        decreases n - i,
                    {
                        let c = key.as_str().get_char(i);
                        self.current_typing.push(c);
                        i = i + 1;
                        assert(self.current_typing@ =~= before + key@.subrange(0, i as int));
                    }
                    assert(key@.subrange(0, n as int) =~= key@);
                    InputAction::Continue
                }
            },
        }
    }
}

/// Reads a command line against the preset commands: `-sair` and `exit`
/// leave; the first preset equal to the line is generated; any other
/// non-empty line is unknown.
pub fn directive(command: &str, presets: &Vec<String>) -> (d: Directive)
    ensures
        match d {
            Directive::Exit => command@ == "-sair"@ || command@ == "exit"@,
            Directive::Generate(i) => {
                &&& !(command@ == "-sair"@ || command@ == "exit"@)
                &&& i < presets@.len()
                &&& presets@[i as int]@ == command@
                &&& forall|j: int| 0 <= j < i ==> (#[trigger] presets@[j])@ != command@
            },
            Directive::Unknown => {
                &&& !(command@ == "-sair"@ || command@ == "exit"@)
                &&& forall|j: int| 0 <= j < presets@.len() ==> (#[trigger] presets@[j])@ != command@
                &&& command@.len() > 0
            },
            Directive::Nothing => {
                &&& !(command@ == "-sair"@ || command@ == "exit"@)
                &&& forall|j: int| 0 <= j < presets@.len() ==> (#[trigger] presets@[j])@ != command@
                &&& command@.len() == 0
            },
        },
{
    if crate::text::str_eq(command, "-sair") || crate::text::str_eq(command, "exit") {
        return Directive::Exit;
    }
    let mut i: usize = 0;
    while i < presets.len()
        invariant
            0 <= i <= presets@.len(),
            !(command@ == "-sair"@ || command@ == "exit"@),
            forall|j: int| 0 <= j < i ==> (#[trigger] presets@[j])@ != command@,
        decreases presets@.len() - i,
    {
        if crate::text::str_eq(presets[i].as_str(), command) {
            return Directive::Generate(i);
        }
        i = i + 1;
    }
    if command.unicode_len() > 0 {
        Directive::Unknown
    } else {
        Directive::Nothing
    }
}

// ---------------------------------------------------------------------------
// Regions of a bounding box.
// ---------------------------------------------------------------------------

/// Blocks per region side.
pub const REGION_SIZE: i32 = 512;

/// Blocks of neighbouring regions read around a region.
pub const REGION_HALO: i32 = 16;

/// The region holding block coordinate `c` (`c >> 9`).
pub fn region_index(c: i32) -> (r: i32)
    ensures
        r == c / 512,
        r * 512 <= c < r * 512 + 512,
{
    if c >= 0 {
        c / REGION_SIZE
    } else {
        let m: i32 = -(c + 1);
        let q: i32 = m / REGION_SIZE;
        assert(c / 512 == -q - 1 && (-q - 1) * 512 <= c < (-q - 1) * 512 + 512) by (nonlinear_arith)
            requires
                c < 0,
                m == -(c + 1),
                q == m / 512,
        ;
        -q - 1
    }
}

/// Row `rz` of a grid of regions: `(a, rz) .. (b, rz)`.
pub open spec fn region_row(a: int, b: int, rz: int) -> Seq<(i32, i32)> {
    if b < a {
        Seq::empty()
    } else {
        Seq::new((b - a + 1) as nat, |j: int| ((a + j) as i32, rz as i32))
    }
}

/// The regions `a..=b` by `c..=d`, row by row (`z` outer, `x` inner).
pub open spec fn region_grid(a: int, b: int, c: int, d: int) -> Seq<(i32, i32)>
    decreases d - c + 1,
{
    if d < c {
        Seq::empty()
    } else {
        region_grid(a, b, c, d - 1) + region_row(a, b, d)
    }
}

/// A region is in the grid exactly when both its coordinates are in range.
pub proof fn lemma_region_grid_members(a: int, b: int, c: int, d: int, p: (i32, i32))
    requires
        a <= b,
        i32::MIN <= a,
        b <= i32::MAX,
        i32::MIN <= c,
        d <= i32::MAX,
    ensures
        region_grid(a, b, c, d).contains(p) <==> (a <= p.0 <= b && c <= p.1 <= d),
    decreases d - c + 1,
{
    if d >= c {
        lemma_region_grid_members(a, b, c, d - 1, p);
        let g = region_grid(a, b, c, d - 1);
        let r = region_row(a, b, d);
        if a <= p.0 <= b && c <= p.1 <= d {
            if p.1 == d {
                assert((g + r)[g.len() + p.0 - a] == p);
            } else {
                let k = choose|k: int| 0 <= k < g.len() && g[k] == p;
                assert((g + r)[k] == p);
            }
        }
        if region_grid(a, b, c, d).contains(p) {
            let k = choose|k: int| 0 <= k < (g + r).len() && (g + r)[k] == p;
            if k >= g.len() {
                assert(r[k - g.len()] == p);
            } else {
                assert(g[k] == p);
            }
        }
    }
}

/// The regions that cover a bounding box, row by row, in the order they are
/// generated.
pub fn regions_to_process(bbox: &crate::coordinate_system::XZBBox) -> (v: Vec<(i32, i32)>)
    ensures
        v@ == region_grid(
            bbox.spec_min_x() / 512,
            bbox.spec_max_x() / 512,
            bbox.spec_min_z() / 512,
            bbox.spec_max_z() / 512,
        ),
{
    let min_rx = region_index(bbox.min_x());
    let max_rx = region_index(bbox.max_x());
    let min_rz = region_index(bbox.min_z());
    let max_rz = region_index(bbox.max_z());
    let mut v: Vec<(i32, i32)> = Vec::new();
    if min_rz > max_rz {
        return v;
    }
    let mut rz: i32 = min_rz;
    loop
        invariant_except_break
            v@ == region_grid(min_rx as int, max_rx as int, min_rz as int, rz - 1),
        invariant
            min_rz <= rz <= max_rz,
            min_rx == bbox.spec_min_x() / 512,
            max_rx == bbox.spec_max_x() / 512,
        ensures
            v@ == region_grid(min_rx as int, max_rx as int, min_rz as int, max_rz as int),
        decreases max_rz - rz,
    {
        let ghost before = v@;
        if min_rx <= max_rx {
            let mut rx: i32 = min_rx;
            loop
                invariant_except_break
                    v@ == before + region_row(min_rx as int, rx - 1, rz as int),
                invariant
                    min_rx <= rx <= max_rx,
                ensures
                    v@ == before + region_row(min_rx as int, max_rx as int, rz as int),
                decreases max_rx - rx,
            {
                v.push((rx, rz));
                assert(v@ =~= before + region_row(min_rx as int, rx as int, rz as int));
                if rx == max_rx {
                    break;
                }
                rx = rx + 1;
            }
        } else {
            assert(region_row(min_rx as int, max_rx as int, rz as int) =~= Seq::empty());
            assert(v@ =~= before + region_row(min_rx as int, max_rx as int, rz as int));
        }
        assert(v@ == region_grid(min_rx as int, max_rx as int, min_rz as int, rz as int));
        if rz == max_rz {
            break;
        }
        rz = rz + 1;
    }
    v
}

/// The blocks that generating region `(rx, rz)` reads: the region and a
/// halo of `REGION_HALO` blocks around it, as `(min_x, max_x, min_z, max_z)`.
pub fn region_halo_bounds(rx: i32, rz: i32) -> (b: (i32, i32, i32, i32))
    requires
        i32::MIN <= rx * 512 - 16,
        (rx + 1) * 512 + 15 <= i32::MAX,
        i32::MIN <= rz * 512 - 16,
        (rz + 1) * 512 + 15 <= i32::MAX,
    ensures
        b.0 == rx * 512 - 16,
        b.1 == (rx + 1) * 512 - 1 + 16,
        b.2 == rz * 512 - 16,
        b.3 == (rz + 1) * 512 - 1 + 16,
{
    (
        rx * REGION_SIZE - REGION_HALO,
        (rx + 1) * REGION_SIZE - 1 + REGION_HALO,
        rz * REGION_SIZE - REGION_HALO,
        (rz + 1) * REGION_SIZE - 1 + REGION_HALO,
    )
}


// ---------------------------------------------------------------------------
// The manifest of sealed regions: one line `x,z,bytes` per region.
// ---------------------------------------------------------------------------

/// Index of the first comma of `s` at or after `from`, or the length of `s`.
pub open spec fn first_comma(s: Seq<char>, from: int) -> int
    decreases s.len() - from,
{
    if from >= s.len() || from < 0 {
        s.len() as int
    } else if s[from] == ',' {
        from
    } else {
        first_comma(s, from + 1)
    }
}

/// A manifest line: exactly three comma-separated fields, a region's `x` and
/// `z` (as `i32`) and its bytes (as `u64`); `None` for any other line.
pub open spec fn spec_manifest_entry(s: Seq<char>) -> Option<(int, int, int)> {
    let i = first_comma(s, 0);
    let j = first_comma(s, i + 1);
    if i >= s.len() || j >= s.len() || first_comma(s, j + 1) < s.len() {
        None
    } else {
        match (
            crate::text::spec_parse_i32(s.subrange(0, i)),
            crate::text::spec_parse_i32(s.subrange(i + 1, j)),
            crate::text::spec_parse_u64(s.subrange(j + 1, s.len() as int)),
        ) {
            (Some(x), Some(z), Some(b)) => Some((x, z, b)),
            _ => None,
        }
    }
}

fn find_comma(s: &str, n: usize, from: usize) -> (r: usize)
    requires
        n == s@.len(),
        from <= n,
    ensures
        r == first_comma(s@, from as int),
        from <= r <= n,
{
    let mut k: usize = from;
    while k < n
        invariant
            n == s@.len(),
            from <= k <= n,
            first_comma(s@, from as int) == first_comma(s@, k as int),
        decreases n - k,
    {
        if s.get_char(k) == ',' {
            return k;
        }
        k = k + 1;
    }
    k
}

/// Reads one line of the manifest of sealed regions.
pub fn parse_manifest_line(line: &str) -> (r: Option<(i32, i32, u64)>)
    ensures
        match r {
            Some((x, z, b)) => spec_manifest_entry(line@) == Some((x as int, z as int, b as int)),
            None => spec_manifest_entry(line@) is None,
        },
{
    let n = line.unicode_len();
    let i = find_comma(line, n, 0);
    if i >= n {
        return None;
    }
    let j = find_comma(line, n, i + 1);
    if j >= n {
        return None;
    }
    let k = find_comma(line, n, j + 1);
    if k < n {
        return None;
    }
    let xs = line.substring_char(0, i);
    let zs = line.substring_char(i + 1, j);
    let bs = line.substring_char(j + 1, n);
    match (crate::text::parse_i32(xs), crate::text::parse_i32(zs), crate::text::parse_u64(bs)) {
        (Some(x), Some(z), Some(b)) => Some((x, z, b)),
        _ => None,
    }
}

} // verus!
