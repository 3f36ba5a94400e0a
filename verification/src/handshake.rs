//! What a session needs from the compositor before it can start.
//!
//! The display server advertises its globals by interface name. Five of them
//! are capabilities without which no overlay can be shown; each advertised
//! output gets an overlay surface of its own.

use vstd::prelude::*;
use vstd::string::*;

verus! {

/// What an advertised global is to the session.
#[derive(Clone, Copy, Debug, PartialEq, Eq, Structural)]
pub enum GlobalKind {
    /// Creates surfaces.
    Compositor,
    /// Shares pixel memory with the compositor.
    Shm,
    /// Places surfaces in layers above and below the windows.
    LayerShell,
    /// Describes outputs in logical coordinates.
    XdgOutputManager,
    /// Pointer and keyboard.
    Seat,
    /// A display.
    Output,
    /// Anything else: of no use here.
    Other,
}

/// The kind of the global with the interface name `interface`.
pub open spec fn classify(interface: Seq<char>) -> GlobalKind {
    if interface == "wl_compositor"@ {
        GlobalKind::Compositor
    } else if interface == "wl_shm"@ {
        GlobalKind::Shm
    } else if interface == "zwlr_layer_shell_v1"@ {
        GlobalKind::LayerShell
    } else if interface == "zxdg_output_manager_v1"@ {
        GlobalKind::XdgOutputManager
    } else if interface == "wl_seat"@ {
        GlobalKind::Seat
    } else if interface == "wl_output"@ {
        GlobalKind::Output
    } else {
        GlobalKind::Other
    }
}

fn same_text(a: &String, b: &str) -> (same: bool)
    ensures
        same == (a@ == b@),
{
    let other: String = String::from_str(b);
    *a == other
}

/// Tells the globals that the session uses from the rest.
pub fn classify_global(interface: &str) -> (kind: GlobalKind)
    ensures
        kind == classify(interface@),
{
    let name: String = String::from_str(interface);
    if same_text(&name, "wl_compositor") {
        GlobalKind::Compositor
    } else if same_text(&name, "wl_shm") {
        GlobalKind::Shm
    } else if same_text(&name, "zwlr_layer_shell_v1") {
        GlobalKind::LayerShell
    } else if same_text(&name, "zxdg_output_manager_v1") {
        GlobalKind::XdgOutputManager
    } else if same_text(&name, "wl_seat") {
        GlobalKind::Seat
    } else if same_text(&name, "wl_output") {
        GlobalKind::Output
    } else {
        GlobalKind::Other
    }
}

/// Which of the required capabilities the compositor has advertised so far.
#[derive(Clone, Copy, Debug, PartialEq, Eq, Structural)]
pub struct Capabilities {
    pub compositor: bool,
    pub shm: bool,
    pub layer_shell: bool,
    pub xdg_output_manager: bool,
    pub seat: bool,
}

/// The name of a capability in the diagnostic, or nothing if it is there.
pub open spec fn missing_name(present: bool, name: Seq<char>) -> Seq<char> {
    if present {
        Seq::empty()
    } else {
        name
    }
}

impl Capabilities {
    pub open spec fn none() -> Capabilities {
        Capabilities {
            compositor: false,
            shm: false,
            layer_shell: false,
            xdg_output_manager: false,
            seat: false,
        }
    }

    /// The capabilities after a global of kind `kind` was advertised.
    pub open spec fn with(self, kind: GlobalKind) -> Capabilities {
        match kind {
            GlobalKind::Compositor => Capabilities { compositor: true, ..self },
            GlobalKind::Shm => Capabilities { shm: true, ..self },
            GlobalKind::LayerShell => Capabilities { layer_shell: true, ..self },
            GlobalKind::XdgOutputManager => Capabilities { xdg_output_manager: true, ..self },
            GlobalKind::Seat => Capabilities { seat: true, ..self },
            _ => self,
        }
    }

    /// Nothing is missing: the session can start.
    pub open spec fn complete(self) -> bool {
        self.compositor && self.shm && self.layer_shell && self.xdg_output_manager && self.seat
    }

    /// An overlay surface can be made for an output: there is something to
    /// create the surface, to give it its layer, and to describe the output.
    pub open spec fn can_host_output(self) -> bool {
        self.compositor && self.layer_shell && self.xdg_output_manager
    }

    /// The diagnostic line for a session that cannot start. It has one place
    /// for each capability, in a fixed order and a space apart; the place of
    /// a capability that is there stays empty.
    pub open spec fn missing_text(self) -> Seq<char> {
        "Missing: "@ + missing_name(self.compositor, "wl_compositor"@) + " "@ + missing_name(
            self.shm,
            "wl_shm"@,
        ) + " "@ + missing_name(self.layer_shell, "zwlr_layer_shell_v1"@) + " "@ + missing_name(
            self.seat,
            "wl_seat"@,
        ) + " "@ + missing_name(self.xdg_output_manager, "zxdg_output_manager_v1"@)
    }

    pub fn new() -> (capabilities: Capabilities)
        ensures
            capabilities == Capabilities::none(),
    {
        Capabilities {
            compositor: false,
            shm: false,
            layer_shell: false,
            xdg_output_manager: false,
            seat: false,
        }
    }

    /// Notes that a global of kind `kind` was advertised.
    pub fn bind(&mut self, kind: GlobalKind)
        ensures
            *final(self) == old(self).with(kind),
    {
        match kind {
            GlobalKind::Compositor => {
                self.compositor = true;
            },
            GlobalKind::Shm => {
                self.shm = true;
            },
            GlobalKind::LayerShell => {
                self.layer_shell = true;
            },
            GlobalKind::XdgOutputManager => {
                self.xdg_output_manager = true;
            },
            GlobalKind::Seat => {
                self.seat = true;
            },
            _ => {},
        }
    }

    pub fn is_complete(&self) -> (complete: bool)
        ensures
            complete == self.complete(),
    {
        self.compositor && self.shm && self.layer_shell && self.xdg_output_manager && self.seat
    }

    pub fn hosts_outputs(&self) -> (able: bool)
        ensures
            able == self.can_host_output(),
    {
        self.compositor && self.layer_shell && self.xdg_output_manager
    }

    /// Names what is missing.
    pub fn missing_line(&self) -> (line: String)
        ensures
            line@ == self.missing_text(),
    {
        let mut line: String = String::from_str("Missing: ");
        append_missing(&mut line, self.compositor, "wl_compositor");
        line.append(" ");
        append_missing(&mut line, self.shm, "wl_shm");
        line.append(" ");
        append_missing(&mut line, self.layer_shell, "zwlr_layer_shell_v1");
        line.append(" ");
        append_missing(&mut line, self.seat, "wl_seat");
        line.append(" ");
        append_missing(&mut line, self.xdg_output_manager, "zxdg_output_manager_v1");
        line
    }
}

fn append_missing(line: &mut String, present: bool, name: &str)
    ensures
        final(line)@ == old(line)@ + missing_name(present, name@),
{
    if !present {
        line.append(name);
    } else {
        assert(line@ =~= line@ + Seq::<char>::empty());
    }
}

/// Advertising a global never takes a capability away, and advertising it
/// once more changes nothing.
pub proof fn lemma_bind_is_monotone(capabilities: Capabilities, kind: GlobalKind)
    ensures
        capabilities.compositor ==> capabilities.with(kind).compositor,
        capabilities.shm ==> capabilities.with(kind).shm,
        capabilities.layer_shell ==> capabilities.with(kind).layer_shell,
        capabilities.xdg_output_manager ==> capabilities.with(kind).xdg_output_manager,
        capabilities.seat ==> capabilities.with(kind).seat,
        capabilities.complete() ==> capabilities.with(kind).complete(),
        capabilities.with(kind).with(kind) == capabilities.with(kind),
{
}

/// Advertising one of the five required globals makes its capability
/// available; outputs and globals of no use leave the capabilities as they
/// are. With the law before, the set is complete as soon as each of the five
/// was advertised, in whatever order and among whatever else.
pub proof fn lemma_bind_sets_its_capability(capabilities: Capabilities, kind: GlobalKind)
    ensures
        kind is Compositor ==> capabilities.with(kind).compositor,
        kind is Shm ==> capabilities.with(kind).shm,
        kind is LayerShell ==> capabilities.with(kind).layer_shell,
        kind is XdgOutputManager ==> capabilities.with(kind).xdg_output_manager,
        kind is Seat ==> capabilities.with(kind).seat,
        kind is Output || kind is Other ==> capabilities.with(kind) == capabilities,
{
}

/// With everything there, the diagnostic is the bare heading and the four
/// separating spaces.
pub proof fn lemma_nothing_missing(capabilities: Capabilities)
    requires
        capabilities.complete(),
    ensures
        capabilities.missing_text() == "Missing: "@ + " "@ + " "@ + " "@ + " "@,
{
    let empty = Seq::<char>::empty();
    assert("Missing: "@ + empty =~= "Missing: "@);
    assert("Missing: "@ + " "@ + empty =~= "Missing: "@ + " "@);
    assert("Missing: "@ + " "@ + " "@ + empty =~= "Missing: "@ + " "@ + " "@);
    assert("Missing: "@ + " "@ + " "@ + " "@ + empty =~= "Missing: "@ + " "@ + " "@ + " "@);
    assert("Missing: "@ + " "@ + " "@ + " "@ + " "@ + empty =~= "Missing: "@ + " "@ + " "@ + " "@
        + " "@);
}

/// A session that can start can also give every output its overlay.
pub proof fn lemma_complete_hosts_outputs(capabilities: Capabilities)
    requires
        capabilities.complete(),
    ensures
        capabilities.can_host_output(),
{
}

/// The layer in which a surface is shown.
#[derive(Clone, Copy, Debug, PartialEq, Eq, Structural)]
pub enum Layer {
    Background,
    Bottom,
    Top,
    Overlay,
}

/// How a layer surface takes part in keyboard focus.
#[derive(Clone, Copy, Debug, PartialEq, Eq, Structural)]
pub enum KeyboardInteractivity {
    Never,
    Exclusive,
    OnDemand,
}

/// The edges of the output to which a layer surface is anchored.
#[derive(Clone, Copy, Debug, PartialEq, Eq, Structural)]
pub struct Anchor {
    pub top: bool,
    pub bottom: bool,
    pub left: bool,
    pub right: bool,
}

/// How the surface over an output is placed.
#[derive(Clone, Copy, Debug, PartialEq, Eq, Structural)]
pub struct OverlayConfig {
    pub layer: Layer,
    pub anchor: Anchor,
    pub keyboard_interactivity: KeyboardInteractivity,
    /// Space that the surface reserves at its anchor; `-1` reserves none and
    /// lets the surface extend under other surfaces' reserved space.
    pub exclusive_zone: i32,
}

/// Full-screen above everything, keyboard on demand, no space reserved.
pub open spec fn overlay_placement() -> OverlayConfig {
    OverlayConfig {
        layer: Layer::Overlay,
        anchor: Anchor { top: true, bottom: true, left: true, right: true },
        keyboard_interactivity: KeyboardInteractivity::OnDemand,
        exclusive_zone: -1i32,
    }
}

/// The placement of every overlay surface of a session.
pub fn overlay_config() -> (config: OverlayConfig)
    ensures
        config == overlay_placement(),
{
    OverlayConfig {
        layer: Layer::Overlay,
        anchor: Anchor { top: true, bottom: true, left: true, right: true },
        keyboard_interactivity: KeyboardInteractivity::OnDemand,
        exclusive_zone: -1,
    }
}

/// The namespace under which the overlay surfaces are made.
pub fn overlay_namespace() -> (name: String)
    ensures
        name@ == "rust-slurp"@,
{
    String::from_str("rust-slurp")
}

} // verus!
