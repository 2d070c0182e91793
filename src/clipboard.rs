//! Writing text to the system clipboard through a cascade of backends.
//!
//! The decisions live here: which backends apply to the running session,
//! in which order they are tried, what each one is invoked with, and how
//! the outcome of each attempt moves the cascade on. Running the tools,
//! looking them up on the search path and the in-process clipboard are
//! left to the caller, which reports what happened as an [`Event`].
use vstd::prelude::*;

verus! {

/// The operating system family the program was built for.
#[derive(Clone, Copy, Debug, PartialEq, Eq, Structural)]
pub enum Platform {
    MacOs,
    Windows,
    Other,
}

/// The display protocol of the running session.
#[derive(Clone, Copy, Debug, PartialEq, Eq, Structural)]
pub enum DisplayEnvironment {
    Wayland,
    X11,
    Native,
    Unknown,
}

/// An external clipboard writer that the cascade can drive.
#[derive(Clone, Copy, Debug, PartialEq, Eq, Structural)]
pub enum Backend {
    WlCopy,
    Xclip,
    Xsel,
    Pbcopy,
    ClipExe,
    Powershell,
}

/// An executable looked up on the search path.
#[derive(Clone, Copy, Debug, PartialEq, Eq, Structural)]
pub enum Tool {
    WlCopy,
    WlPaste,
    Xclip,
    Xsel,
    Pbcopy,
    ClipExe,
    Powershell,
}

/// One step of the cascade: an external backend, or the in-process library.
#[derive(Clone, Copy, Debug, PartialEq, Eq, Structural)]
pub enum Candidate {
    Cli(Backend),
    Library,
}

pub open spec fn has_native_clipboard(platform: Platform) -> bool {
    platform == Platform::MacOs || platform == Platform::Windows
}

/// The session's display protocol, from whether the two Wayland indicators
/// and the X11 indicator are set.
pub open spec fn classify(
    wayland_display: bool,
    wayland_socket: bool,
    x11_display: bool,
    platform: Platform,
) -> DisplayEnvironment {
    if wayland_display || wayland_socket {
        DisplayEnvironment::Wayland
    } else if x11_display {
        DisplayEnvironment::X11
    } else if has_native_clipboard(platform) {
        DisplayEnvironment::Native
    } else {
        DisplayEnvironment::Unknown
    }
}

/// Classifies the session. Wayland wins over X11 when both are set; X11
/// backends still apply then (see [`applicable`]).
pub fn probe(
    wayland_display: bool,
    wayland_socket: bool,
    x11_display: bool,
    platform: Platform,
) -> (r: DisplayEnvironment)
    ensures
        r == classify(wayland_display, wayland_socket, x11_display, platform),
{
    if wayland_display || wayland_socket {
        DisplayEnvironment::Wayland
    } else if x11_display {
        DisplayEnvironment::X11
    } else if platform == Platform::MacOs || platform == Platform::Windows {
        DisplayEnvironment::Native
    } else {
        DisplayEnvironment::Unknown
    }
}

/// Whether a backend is worth trying in the session: the Wayland tool under
/// Wayland, the X11 tools under X11 or Wayland (XWayland), the native tools
/// on their own platform.
pub open spec fn applicable(b: Backend, env: DisplayEnvironment, platform: Platform) -> bool {
    match b {
        Backend::WlCopy => env == DisplayEnvironment::Wayland,
        Backend::Xclip | Backend::Xsel => env == DisplayEnvironment::Wayland || env
            == DisplayEnvironment::X11,
        Backend::Pbcopy => platform == Platform::MacOs,
        Backend::ClipExe | Backend::Powershell => platform == Platform::Windows,
    }
}

pub fn is_applicable(b: Backend, env: DisplayEnvironment, platform: Platform) -> (r: bool)
    ensures
        r == applicable(b, env, platform),
{
    match b {
        Backend::WlCopy => env == DisplayEnvironment::Wayland,
        Backend::Xclip | Backend::Xsel => env == DisplayEnvironment::Wayland || env
            == DisplayEnvironment::X11,
        Backend::Pbcopy => platform == Platform::MacOs,
        Backend::ClipExe | Backend::Powershell => platform == Platform::Windows,
    }
}

/// The position of a candidate in the fixed cascade order: protocol-native
/// tools first, then platform tools, the library last.
pub open spec fn rank(c: Candidate) -> int {
    match c {
        Candidate::Cli(Backend::WlCopy) => 0,
        Candidate::Cli(Backend::Xclip) => 1,
        Candidate::Cli(Backend::Xsel) => 2,
        Candidate::Cli(Backend::Pbcopy) => 3,
        Candidate::Cli(Backend::ClipExe) => 4,
        Candidate::Cli(Backend::Powershell) => 5,
        Candidate::Library => 6,
    }
}

pub open spec fn if_applicable(b: Backend, env: DisplayEnvironment, platform: Platform) -> Seq<
    Candidate,
> {
    if applicable(b, env, platform) {
        seq![Candidate::Cli(b)]
    } else {
        Seq::empty()
    }
}

/// The cascade for a session: the applicable backends in the fixed order,
/// then the library.
pub open spec fn candidate_list(env: DisplayEnvironment, platform: Platform) -> Seq<Candidate> {
    if_applicable(Backend::WlCopy, env, platform) + if_applicable(Backend::Xclip, env, platform)
        + if_applicable(Backend::Xsel, env, platform) + if_applicable(
        Backend::Pbcopy,
        env,
        platform,
    ) + if_applicable(Backend::ClipExe, env, platform) + if_applicable(
        Backend::Powershell,
        env,
        platform,
    ) + seq![Candidate::Library]
}

fn push_if_applicable(
    v: &mut Vec<Candidate>,
    b: Backend,
    env: DisplayEnvironment,
    platform: Platform,
)
    ensures
        final(v)@ == old(v)@ + if_applicable(b, env, platform),
{
    if is_applicable(b, env, platform) {
        v.push(Candidate::Cli(b));
    } else {
        assert(old(v)@ + if_applicable(b, env, platform) =~= old(v)@);
    }
}

/// The candidates to try, in order, for a session.
pub fn candidates(env: DisplayEnvironment, platform: Platform) -> (r: Vec<Candidate>)
    ensures
        r@ == candidate_list(env, platform),
{
    let mut v: Vec<Candidate> = Vec::new();
    push_if_applicable(&mut v, Backend::WlCopy, env, platform);
    push_if_applicable(&mut v, Backend::Xclip, env, platform);
    push_if_applicable(&mut v, Backend::Xsel, env, platform);
    push_if_applicable(&mut v, Backend::Pbcopy, env, platform);
    push_if_applicable(&mut v, Backend::ClipExe, env, platform);
    push_if_applicable(&mut v, Backend::Powershell, env, platform);
    v.push(Candidate::Library);
    assert(v@ =~= candidate_list(env, platform));
    v
}

/// For every session the cascade is non-empty, ends with the library, holds
/// each applicable backend exactly once and nothing else, and keeps the fixed
/// order, so that the protocol's own tool comes first.
pub proof fn lemma_candidates_ordered(env: DisplayEnvironment, platform: Platform)
    ensures
        candidate_list(env, platform).len() > 0,
        candidate_list(env, platform).last() == Candidate::Library,
        forall|i: int, j: int|
            0 <= i < j < candidate_list(env, platform).len() ==> rank(
                #[trigger] candidate_list(env, platform)[i],
            ) < rank(#[trigger] candidate_list(env, platform)[j]),
        forall|b: Backend|
            #[trigger] applicable(b, env, platform) <==> candidate_list(env, platform).contains(
                Candidate::Cli(b),
            ),
        env == DisplayEnvironment::Wayland ==> candidate_list(env, platform)[0] == Candidate::Cli(
            Backend::WlCopy,
        ),
        env == DisplayEnvironment::X11 ==> candidate_list(env, platform)[0] == Candidate::Cli(
            Backend::Xclip,
        ),
{
    let l = candidate_list(env, platform);
    let w = Candidate::Cli(Backend::WlCopy);
    let xc = Candidate::Cli(Backend::Xclip);
    let xs = Candidate::Cli(Backend::Xsel);
    let pb = Candidate::Cli(Backend::Pbcopy);
    let ce = Candidate::Cli(Backend::ClipExe);
    let ps = Candidate::Cli(Backend::Powershell);
    let lib = Candidate::Library;
    match env {
        DisplayEnvironment::Wayland => match platform {
            Platform::MacOs => assert(l =~= seq![w, xc, xs, pb, lib]),
            Platform::Windows => assert(l =~= seq![w, xc, xs, ce, ps, lib]),
            Platform::Other => assert(l =~= seq![w, xc, xs, lib]),
        },
        DisplayEnvironment::X11 => match platform {
            Platform::MacOs => assert(l =~= seq![xc, xs, pb, lib]),
            Platform::Windows => assert(l =~= seq![xc, xs, ce, ps, lib]),
            Platform::Other => assert(l =~= seq![xc, xs, lib]),
        },
        _ => match platform {
            Platform::MacOs => assert(l =~= seq![pb, lib]),
            Platform::Windows => assert(l =~= seq![ce, ps, lib]),
            Platform::Other => assert(l =~= seq![lib]),
        },
    }
    assert forall|b: Backend| #[trigger] applicable(b, env, platform) <==> l.contains(
        Candidate::Cli(b),
    ) by {
        if l.contains(Candidate::Cli(b)) {
            let k = choose|k: int| 0 <= k < l.len() && l[k] == Candidate::Cli(b);
        }
    }
}

/// A command line to run: the program, looked up on the search path, and
/// its arguments.
#[derive(Debug)]
pub struct Invocation {
    pub program: String,
    pub args: Vec<String>,
}

impl View for Invocation {
    type V = (Seq<char>, Seq<Seq<char>>);

    open spec fn view(&self) -> (Seq<char>, Seq<Seq<char>>) {
        (self.program@, self.args@.map_values(|a: String| a@))
    }
}

pub open spec fn program_name(t: Tool) -> Seq<char> {
    match t {
        Tool::WlCopy => "wl-copy"@,
        Tool::WlPaste => "wl-paste"@,
        Tool::Xclip => "xclip"@,
        Tool::Xsel => "xsel"@,
        Tool::Pbcopy => "pbcopy"@,
        Tool::ClipExe => "clip.exe"@,
        Tool::Powershell => "powershell"@,
    }
}

/// The executable name of a tool.
pub fn program(t: Tool) -> (r: String)
    ensures
        r@ == program_name(t),
{
    match t {
        Tool::WlCopy => String::from_str("wl-copy"),
        Tool::WlPaste => String::from_str("wl-paste"),
        Tool::Xclip => String::from_str("xclip"),
        Tool::Xsel => String::from_str("xsel"),
        Tool::Pbcopy => String::from_str("pbcopy"),
        Tool::ClipExe => String::from_str("clip.exe"),
        Tool::Powershell => String::from_str("powershell"),
    }
}

/// The tool that writes for a backend.
pub open spec fn writer_of(b: Backend) -> Tool {
    match b {
        Backend::WlCopy => Tool::WlCopy,
        Backend::Xclip => Tool::Xclip,
        Backend::Xsel => Tool::Xsel,
        Backend::Pbcopy => Tool::Pbcopy,
        Backend::ClipExe => Tool::ClipExe,
        Backend::Powershell => Tool::Powershell,
    }
}

/// The tool that reads the clipboard back for a backend, where it has one.
pub open spec fn reader_of(b: Backend) -> Option<Tool> {
    match b {
        Backend::WlCopy => Some(Tool::WlPaste),
        Backend::Xclip => Some(Tool::Xclip),
        Backend::Xsel => Some(Tool::Xsel),
        _ => None,
    }
}

pub fn writer_tool(b: Backend) -> (r: Tool)
    ensures
        r == writer_of(b),
{
    match b {
        Backend::WlCopy => Tool::WlCopy,
        Backend::Xclip => Tool::Xclip,
        Backend::Xsel => Tool::Xsel,
        Backend::Pbcopy => Tool::Pbcopy,
        Backend::ClipExe => Tool::ClipExe,
        Backend::Powershell => Tool::Powershell,
    }
}

pub fn reader_tool(b: Backend) -> (r: Option<Tool>)
    ensures
        r == reader_of(b),
{
    match b {
        Backend::WlCopy => Some(Tool::WlPaste),
        Backend::Xclip => Some(Tool::Xclip),
        Backend::Xsel => Some(Tool::Xsel),
        _ => None,
    }
}

/// The arguments each backend's writer takes; the text goes to its standard
/// input. All of them target the clipboard selection, not the primary one.
pub open spec fn write_args(b: Backend) -> Seq<Seq<char>> {
    match b {
        Backend::WlCopy => seq!["--type"@, "text/plain;charset=utf-8"@, "-n"@],
        Backend::Xclip => seq!["-selection"@, "clipboard"@],
        Backend::Xsel => seq!["--clipboard"@, "--input"@],
        Backend::Pbcopy => seq![],
        Backend::ClipExe => seq![],
        Backend::Powershell => seq!["-NoProfile"@, "-Command"@, "Set-Clipboard"@],
    }
}

/// The arguments each backend's reader takes to print the clipboard.
pub open spec fn read_args(b: Backend) -> Seq<Seq<char>> {
    match b {
        Backend::WlCopy => seq!["-n"@],
        Backend::Xclip => seq!["-selection"@, "clipboard"@, "-o"@],
        Backend::Xsel => seq!["--clipboard"@, "--output"@],
        _ => seq![],
    }
}

fn command(t: Tool, args: Vec<String>) -> (r: Invocation)
    ensures
        r@.0 == program_name(t),
        r.args == args,
{
    Invocation { program: program(t), args }
}

/// `wl-copy` with an explicit text type and no trailing newline.
pub fn wl_copy() -> (r: Invocation)
    ensures
        r@ == (program_name(Tool::WlCopy), write_args(Backend::WlCopy)),
{
    let args = vec![
        String::from_str("--type"),
        String::from_str("text/plain;charset=utf-8"),
        String::from_str("-n"),
    ];
    let r = command(Tool::WlCopy, args);
    assert(r@.1 =~= write_args(Backend::WlCopy));
    r
}

/// `xclip` writing the clipboard selection.
pub fn xclip_copy() -> (r: Invocation)
    ensures
        r@ == (program_name(Tool::Xclip), write_args(Backend::Xclip)),
{
    let args = vec![String::from_str("-selection"), String::from_str("clipboard")];
    let r = command(Tool::Xclip, args);
    assert(r@.1 =~= write_args(Backend::Xclip));
    r
}

/// `xsel` writing the clipboard selection.
pub fn xsel_copy() -> (r: Invocation)
    ensures
        r@ == (program_name(Tool::Xsel), write_args(Backend::Xsel)),
{
    let args = vec![String::from_str("--clipboard"), String::from_str("--input")];
    let r = command(Tool::Xsel, args);
    assert(r@.1 =~= write_args(Backend::Xsel));
    r
}

/// `pbcopy`, which takes no arguments.
pub fn pbcopy() -> (r: Invocation)
    ensures
        r@ == (program_name(Tool::Pbcopy), write_args(Backend::Pbcopy)),
{
    let r = command(Tool::Pbcopy, Vec::new());
    assert(r@.1 =~= write_args(Backend::Pbcopy));
    r
}

/// `clip.exe`, which takes no arguments.
pub fn clip_exe() -> (r: Invocation)
    ensures
        r@ == (program_name(Tool::ClipExe), write_args(Backend::ClipExe)),
{
    let r = command(Tool::ClipExe, Vec::new());
    assert(r@.1 =~= write_args(Backend::ClipExe));
    r
}

/// PowerShell's `Set-Clipboard`, reading its standard input.
pub fn powershell_clip() -> (r: Invocation)
    ensures
        r@ == (program_name(Tool::Powershell), write_args(Backend::Powershell)),
{
    let args = vec![
        String::from_str("-NoProfile"),
        String::from_str("-Command"),
        String::from_str("Set-Clipboard"),
    ];
    let r = command(Tool::Powershell, args);
    assert(r@.1 =~= write_args(Backend::Powershell));
    r
}

/// `wl-paste` printing the clipboard without a trailing newline.
pub fn wl_paste() -> (r: Invocation)
    ensures
        r@ == (program_name(Tool::WlPaste), read_args(Backend::WlCopy)),
{
    let args = vec![String::from_str("-n")];
    let r = command(Tool::WlPaste, args);
    assert(r@.1 =~= read_args(Backend::WlCopy));
    r
}

/// `xclip` printing the clipboard selection.
pub fn xclip_paste() -> (r: Invocation)
    ensures
        r@ == (program_name(Tool::Xclip), read_args(Backend::Xclip)),
{
    let args = vec![
        String::from_str("-selection"),
        String::from_str("clipboard"),
        String::from_str("-o"),
    ];
    let r = command(Tool::Xclip, args);
    assert(r@.1 =~= read_args(Backend::Xclip));
    r
}

/// `xsel` printing the clipboard selection.
pub fn xsel_paste() -> (r: Invocation)
    ensures
        r@ == (program_name(Tool::Xsel), read_args(Backend::Xsel)),
{
    let args = vec![String::from_str("--clipboard"), String::from_str("--output")];
    let r = command(Tool::Xsel, args);
    assert(r@.1 =~= read_args(Backend::Xsel));
    r
}

/// The command that writes the clipboard through a backend.
pub fn write_invocation(b: Backend) -> (r: Invocation)
    ensures
        r@ == (program_name(writer_of(b)), write_args(b)),
{
    match b {
        Backend::WlCopy => wl_copy(),
        Backend::Xclip => xclip_copy(),
        Backend::Xsel => xsel_copy(),
        Backend::Pbcopy => pbcopy(),
        Backend::ClipExe => clip_exe(),
        Backend::Powershell => powershell_clip(),
    }
}

/// The command that reads the clipboard back after a backend wrote it, for
/// the backends that have a reader.
pub fn read_invocation(b: Backend) -> (r: Option<Invocation>)
    ensures
        match reader_of(b) {
            Some(t) => r is Some && r->Some_0@ == (program_name(t), read_args(b)),
            None => r is None,
        },
{
    match b {
        Backend::WlCopy => Some(wl_paste()),
        Backend::Xclip => Some(xclip_paste()),
        Backend::Xsel => Some(xsel_paste()),
        _ => None,
    }
}

/// What a read-back after a write shows.
#[derive(Clone, Copy, Debug, PartialEq, Eq, Structural)]
pub enum VerifyOutcome {
    Confirmed,
    Empty,
    Inconclusive,
}

/// A read-back is inconclusive when the reader is missing or could not be
/// run, empty only when it ran and printed nothing, and confirmed otherwise.
pub open spec fn verify_spec(reader_available: bool, captured: Option<usize>) -> VerifyOutcome {
    if !reader_available {
        VerifyOutcome::Inconclusive
    } else {
        match captured {
            None => VerifyOutcome::Inconclusive,
            Some(n) => if n == 0 {
                VerifyOutcome::Empty
            } else {
                VerifyOutcome::Confirmed
            },
        }
    }
}

/// Judges a read-back from whether the reader was found and, where it ran,
/// how many bytes it printed (`None` where it could not be run).
pub fn verify_non_empty(reader_available: bool, captured: Option<usize>) -> (r: VerifyOutcome)
    ensures
        r == verify_spec(reader_available, captured),
{
    if !reader_available {
        VerifyOutcome::Inconclusive
    } else {
        match captured {
            None => VerifyOutcome::Inconclusive,
            Some(n) => if n == 0 {
                VerifyOutcome::Empty
            } else {
                VerifyOutcome::Confirmed
            },
        }
    }
}

} // verus!
