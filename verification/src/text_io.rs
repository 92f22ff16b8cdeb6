//! Text delivery: which way the text goes into the focused application, and
//! in which order the tools of the system are tried.
//!
//! Whether a tool is installed is for the caller to find out; the functions
//! here take the answers and decide.

use crate::text::same_text;
use vstd::prelude::*;
use vstd::string::*;

verus! {

/// The way text is injected into the focused application.
#[derive(Debug, Clone, Copy, PartialEq, Eq, Structural)]
pub enum InjectionMethod {
    Wtype,
    Ydotool,
    Clipboard,
}

/// Which tools and surroundings were found on this system.
#[derive(Debug, Clone, Copy, PartialEq, Eq, Structural)]
pub struct Tools {
    /// `WAYLAND_DISPLAY` is set.
    pub wayland_session: bool,
    /// `XDG_CURRENT_DESKTOP` is `KDE`.
    pub kde_desktop: bool,
    pub wl_copy: bool,
    pub wl_paste: bool,
    pub wtype: bool,
    pub ydotool: bool,
    pub xdotool: bool,
}

/// The name of `method`.
pub open spec fn method_name(method: InjectionMethod) -> Seq<char> {
    match method {
        InjectionMethod::Wtype => "wtype"@,
        InjectionMethod::Ydotool => "ydotool"@,
        InjectionMethod::Clipboard => "clipboard"@,
    }
}

/// The method that `s` names, if it names one. The clipboard has two names.
pub open spec fn parsed_method(s: Seq<char>) -> Option<InjectionMethod> {
    if s == "wtype"@ {
        Some(InjectionMethod::Wtype)
    } else if s == "ydotool"@ {
        Some(InjectionMethod::Ydotool)
    } else if s == "clipboard"@ || s == "paste"@ {
        Some(InjectionMethod::Clipboard)
    } else {
        None
    }
}

/// Whether `method` can be used with `tools`. The clipboard always can.
pub open spec fn method_available(method: InjectionMethod, tools: Tools) -> bool {
    match method {
        InjectionMethod::Clipboard => true,
        InjectionMethod::Wtype => tools.wtype,
        InjectionMethod::Ydotool => tools.ydotool,
    }
}

/// The method that follows `method` in the cycle clipboard, wtype, ydotool.
pub open spec fn successor(method: InjectionMethod) -> InjectionMethod {
    match method {
        InjectionMethod::Clipboard => InjectionMethod::Wtype,
        InjectionMethod::Wtype => InjectionMethod::Ydotool,
        InjectionMethod::Ydotool => InjectionMethod::Clipboard,
    }
}

/// The first method after `method` in the cycle that can be used with `tools`.
pub open spec fn next_method(method: InjectionMethod, tools: Tools) -> InjectionMethod {
    let first = successor(method);
    let second = successor(first);
    if method_available(first, tools) {
        first
    } else if method_available(second, tools) {
        second
    } else if method_available(method, tools) {
        method
    } else {
        InjectionMethod::Clipboard
    }
}

/// The method that is chosen without a preference: the clipboard in a
/// Wayland session with `wl-copy`, else ydotool, else wtype, else the
/// clipboard.
pub open spec fn detected_method(tools: Tools) -> InjectionMethod {
    if tools.wayland_session && tools.wl_copy {
        InjectionMethod::Clipboard
    } else if tools.ydotool {
        InjectionMethod::Ydotool
    } else if tools.wtype {
        InjectionMethod::Wtype
    } else {
        InjectionMethod::Clipboard
    }
}

/// The method that is chosen with preference `preferred`: the preferred one
/// if it is named and can be used, else the detected one.
pub open spec fn chosen_method(preferred: Option<Seq<char>>, tools: Tools) -> InjectionMethod {
    match preferred {
        Some(choice) => match parsed_method(choice) {
            Some(method) => if method_available(method, tools) {
                method
            } else {
                detected_method(tools)
            },
            None => detected_method(tools),
        },
        None => detected_method(tools),
    }
}

/// The cycle reaches every method that can be used, and no other: the next
/// method can always be used, and it skips none that can.
pub proof fn law_next_method_is_available(method: InjectionMethod, tools: Tools)
    ensures
        method_available(next_method(method, tools), tools),
        method_available(successor(method), tools) ==> next_method(method, tools) == successor(
            method,
        ),
        !tools.wtype && !tools.ydotool ==> next_method(method, tools)
            == InjectionMethod::Clipboard,
{
}

/// `parse` reads what `as_str` writes.
pub proof fn law_method_name_round_trip(method: InjectionMethod)
    ensures
        parsed_method(method_name(method)) == Some(method),
{
    reveal_strlit("wtype");
    reveal_strlit("ydotool");
    reveal_strlit("clipboard");
    reveal_strlit("paste");
    let name = method_name(method);
    match method {
        InjectionMethod::Wtype => {},
        InjectionMethod::Ydotool => {
            assert("ydotool"@[0] != "wtype"@[0]);
        },
        InjectionMethod::Clipboard => {
            assert("clipboard"@[0] != "wtype"@[0]);
            assert("clipboard"@[0] != "ydotool"@[0]);
        },
    }
}

impl InjectionMethod {
    /// The name of this method.
    pub fn as_str(&self) -> (r: &'static str)
        ensures
            r@ == method_name(*self),
    {
        match self {
            InjectionMethod::Wtype => "wtype",
            InjectionMethod::Ydotool => "ydotool",
            InjectionMethod::Clipboard => "clipboard",
        }
    }

    /// The method that `s` names, if it names one.
    pub fn parse(s: &str) -> (r: Option<Self>)
        ensures
            r == parsed_method(s@),
    {
        if same_text(s, "wtype") {
            Some(InjectionMethod::Wtype)
        } else if same_text(s, "ydotool") {
            Some(InjectionMethod::Ydotool)
        } else if same_text(s, "clipboard") || same_text(s, "paste") {
            Some(InjectionMethod::Clipboard)
        } else {
            None
        }
    }

    /// Whether this method can be used with `tools`.
    pub fn is_available(&self, tools: &Tools) -> (r: bool)
        ensures
            r == method_available(*self, *tools),
    {
        match self {
            InjectionMethod::Clipboard => true,
            InjectionMethod::Wtype => tools.wtype,
            InjectionMethod::Ydotool => tools.ydotool,
        }
    }

    fn following(&self) -> (r: Self)
        ensures
            r == successor(*self),
    {
        match self {
            InjectionMethod::Clipboard => InjectionMethod::Wtype,
            InjectionMethod::Wtype => InjectionMethod::Ydotool,
            InjectionMethod::Ydotool => InjectionMethod::Clipboard,
        }
    }

    /// The first method after this one, in the cycle clipboard, wtype,
    /// ydotool, that can be used with `tools`.
    pub fn next_available(&self, tools: &Tools) -> (r: Self)
        ensures
            r == next_method(*self, *tools),
    {
        let mut candidate = self.following();
        let mut tried: usize = 1;
        while tried <= 3
            invariant
                1 <= tried <= 4,
                tried == 1 ==> candidate == successor(*self),
                tried == 2 ==> candidate == successor(successor(*self)) && !method_available(
                    successor(*self),
                    *tools,
                ),
                tried == 3 ==> candidate == *self && !method_available(successor(*self), *tools)
                    && !method_available(successor(successor(*self)), *tools),
                tried == 4 ==> next_method(*self, *tools) == InjectionMethod::Clipboard,
            decreases 4 - tried,
        {
            if candidate.is_available(tools) {
                return candidate;
            }
            candidate = candidate.following();
            tried += 1;
        }
        InjectionMethod::Clipboard
    }

    /// The method to start with: `preferred` if it names a method that can
    /// be used with `tools`, else what `tools` suggests.
    pub fn detect(preferred: Option<&str>, tools: &Tools) -> (r: Self)
        ensures
            r == chosen_method(
                match preferred {
                    Some(p) => Some(p@),
                    None => None,
                },
                *tools,
            ),
    {
        if let Some(choice) = preferred {
            if let Some(method) = InjectionMethod::parse(choice) {
                if method.is_available(tools) {
                    return method;
                }
            }
        }
        if tools.wayland_session && tools.wl_copy {
            InjectionMethod::Clipboard
        } else if tools.ydotool {
            InjectionMethod::Ydotool
        } else if tools.wtype {
            InjectionMethod::Wtype
        } else {
            InjectionMethod::Clipboard
        }
    }
}

/// The names of the methods that can be used with `tools`: the clipboard
/// first, then wtype and ydotool as far as they are installed.
pub fn available_methods(tools: &Tools) -> (r: Vec<InjectionMethod>)
    ensures
        r@ == Seq::<InjectionMethod>::empty().push(InjectionMethod::Clipboard) + (if tools.wtype {
            seq![InjectionMethod::Wtype]
        } else {
            Seq::<InjectionMethod>::empty()
        }) + (if tools.ydotool {
            seq![InjectionMethod::Ydotool]
        } else {
            Seq::<InjectionMethod>::empty()
        }),
{
    let mut methods: Vec<InjectionMethod> = Vec::new();
    methods.push(InjectionMethod::Clipboard);
    if tools.wtype {
        methods.push(InjectionMethod::Wtype);
    }
    if tools.ydotool {
        methods.push(InjectionMethod::Ydotool);
    }
    proof {
        let head = Seq::<InjectionMethod>::empty().push(InjectionMethod::Clipboard);
        let w = if tools.wtype {
            seq![InjectionMethod::Wtype]
        } else {
            Seq::<InjectionMethod>::empty()
        };
        let y = if tools.ydotool {
            seq![InjectionMethod::Ydotool]
        } else {
            Seq::<InjectionMethod>::empty()
        };
        assert(methods@ =~= head + w + y);
    }
    methods
}

/// One step of an injection.
#[derive(Debug, Clone, Copy, PartialEq, Eq, Structural)]
pub enum DeliveryStep {
    /// Type the text with `wtype`.
    TypeWithWtype,
    /// Type the text with `ydotool type`.
    TypeWithYdotool,
    /// Put the text on the clipboard.
    CopyToClipboard,
    /// Make the focused application paste from the clipboard.
    SimulatePaste,
}

/// The steps of an injection with `method`. Empty text needs no step. A
/// typing tool comes first where one is chosen; the clipboard and a paste
/// stand behind it and are taken only if the typing fails.
pub open spec fn injection_steps(method: InjectionMethod, text: Seq<char>) -> Seq<DeliveryStep> {
    if text.len() == 0 {
        Seq::empty()
    } else {
        match method {
            InjectionMethod::Wtype => seq![
                DeliveryStep::TypeWithWtype,
                DeliveryStep::CopyToClipboard,
                DeliveryStep::SimulatePaste,
            ],
            InjectionMethod::Ydotool => seq![
                DeliveryStep::TypeWithYdotool,
                DeliveryStep::CopyToClipboard,
                DeliveryStep::SimulatePaste,
            ],
            InjectionMethod::Clipboard => seq![DeliveryStep::SimulatePaste],
        }
    }
}

/// The steps of an injection of `text` with `method`.
pub fn plan_injection(method: InjectionMethod, text: &str) -> (r: Vec<DeliveryStep>)
    ensures
        r@ == injection_steps(method, text@),
{
    let mut steps: Vec<DeliveryStep> = Vec::new();
    if text.unicode_len() == 0 {
        return steps;
    }
    match method {
        InjectionMethod::Wtype => {
            steps.push(DeliveryStep::TypeWithWtype);
            steps.push(DeliveryStep::CopyToClipboard);
            steps.push(DeliveryStep::SimulatePaste);
        },
        InjectionMethod::Ydotool => {
            steps.push(DeliveryStep::TypeWithYdotool);
            steps.push(DeliveryStep::CopyToClipboard);
            steps.push(DeliveryStep::SimulatePaste);
        },
        InjectionMethod::Clipboard => {
            steps.push(DeliveryStep::SimulatePaste);
        },
    }
    assert(steps@ =~= injection_steps(method, text@));
    steps
}

/// One way to make the focused application paste.
#[derive(Debug, Clone, Copy, PartialEq, Eq, Structural)]
pub enum PasteAttempt {
    /// Read the clipboard with `wl-paste` and type it with `wtype`.
    TypeClipboardWithWtype,
    /// Press Super+V with `ydotool`.
    YdotoolKeys,
    /// Press Super+V with `xdotool`.
    XdotoolKeys,
    /// Ask Klipper to paste.
    KdeKlipper,
}

/// Whether `attempt` can be made with `tools`.
pub open spec fn attempt_possible(attempt: PasteAttempt, tools: Tools) -> bool {
    match attempt {
        PasteAttempt::TypeClipboardWithWtype => tools.wtype && tools.wl_paste,
        PasteAttempt::YdotoolKeys => tools.ydotool,
        PasteAttempt::XdotoolKeys => tools.xdotool,
        PasteAttempt::KdeKlipper => tools.kde_desktop,
    }
}

/// Every way to paste, in the order in which they are tried.
pub open spec fn all_paste_attempts() -> Seq<PasteAttempt> {
    seq![
        PasteAttempt::TypeClipboardWithWtype,
        PasteAttempt::YdotoolKeys,
        PasteAttempt::XdotoolKeys,
        PasteAttempt::KdeKlipper,
    ]
}

/// The ways to paste that can be tried with `tools`, in order.
pub open spec fn paste_plan(tools: Tools) -> Seq<PasteAttempt> {
    all_paste_attempts().filter(|a: PasteAttempt| attempt_possible(a, tools))
}

/// The ways to paste that can be tried with `tools`, in the order in which
/// they are to be tried. The first that succeeds ends the paste; if none
/// does, the text stays on the clipboard.
pub fn paste_attempts(tools: &Tools) -> (r: Vec<PasteAttempt>)
    ensures
        r@ == paste_plan(*tools),
{
    let mut plan: Vec<PasteAttempt> = Vec::new();
    let ghost all = all_paste_attempts();
    let ghost keep = |a: PasteAttempt| attempt_possible(a, *tools);
    proof {
        reveal(Seq::filter);
        assert(all.take(0).filter(keep) =~= Seq::<PasteAttempt>::empty());
    }
    if tools.wtype && tools.wl_paste {
        plan.push(PasteAttempt::TypeClipboardWithWtype);
    }
    proof {
        lemma_filter_step(all, keep, 0);
    }
    if tools.ydotool {
        plan.push(PasteAttempt::YdotoolKeys);
    }
    proof {
        lemma_filter_step(all, keep, 1);
    }
    if tools.xdotool {
        plan.push(PasteAttempt::XdotoolKeys);
    }
    proof {
        lemma_filter_step(all, keep, 2);
    }
    if tools.kde_desktop {
        plan.push(PasteAttempt::KdeKlipper);
    }
    proof {
        lemma_filter_step(all, keep, 3);
        assert(all.take(4) =~= all);
    }
    plan
}

/// Filtering one element more keeps it behind the rest if it passes.
pub proof fn lemma_filter_step<A>(s: Seq<A>, keep: spec_fn(A) -> bool, i: int)
    requires
        0 <= i < s.len(),
    ensures
        s.take(i + 1).filter(keep) == (if keep(s[i]) {
            s.take(i).filter(keep).push(s[i])
        } else {
            s.take(i).filter(keep)
        }),
{
    reveal(Seq::filter);
    assert(s.take(i + 1).drop_last() =~= s.take(i));
    assert(s.take(i + 1).last() == s[i]);
}

/// One step of a paste.
#[derive(Debug, Clone, Copy, PartialEq, Eq, Structural)]
pub enum PasteStep {
    /// Try this way next.
    Try(PasteAttempt),
    /// The paste is over, and `pasted` tells whether a way succeeded. It is
    /// no failure if none did: the text stays on the clipboard.
    Done { pasted: bool },
}

/// The step that follows after the first `tried` ways of `plan` were tried,
/// where `last_succeeded` tells how the last of them went: the paste ends
/// with the first way that succeeds, and when no way is left.
pub open spec fn paste_step_after(plan: Seq<PasteAttempt>, tried: nat, last_succeeded: bool)
    -> PasteStep {
    if tried > 0 && last_succeeded {
        PasteStep::Done { pasted: true }
    } else if tried < plan.len() {
        PasteStep::Try(plan[tried as int])
    } else {
        PasteStep::Done { pasted: false }
    }
}

/// The step that follows after the first `tried` ways of `plan` were tried,
/// where `last_succeeded` tells how the last of them went.
pub fn next_paste_step(plan: &Vec<PasteAttempt>, tried: usize, last_succeeded: bool) -> (r:
    PasteStep)
    ensures
        r == paste_step_after(plan@, tried as nat, last_succeeded),
{
    if tried > 0 && last_succeeded {
        PasteStep::Done { pasted: true }
    } else if tried < plan.len() {
        PasteStep::Try(plan[tried])
    } else {
        PasteStep::Done { pasted: false }
    }
}

/// The keys that `ydotool key` gets for Super+V: Super down, V down, V up,
/// Super up.
pub fn ydotool_paste_keys() -> (r: Vec<&'static str>)
    ensures
        r@.len() == 5,
        r@[0]@ == "key"@,
        r@[1]@ == "125:1"@,
        r@[2]@ == "47:1"@,
        r@[3]@ == "47:0"@,
        r@[4]@ == "125:0"@,
{
    let mut keys: Vec<&'static str> = Vec::new();
    keys.push("key");
    keys.push("125:1");
    keys.push("47:1");
    keys.push("47:0");
    keys.push("125:0");
    keys
}

/// A command of the system that takes text on its input and puts it on the
/// clipboard.
#[derive(Debug, Clone, Copy, PartialEq, Eq, Structural)]
pub enum ClipboardBackend {
    WlCopy,
    Xclip,
    Xsel,
}

/// The command of `backend`.
pub open spec fn backend_command(backend: ClipboardBackend) -> Seq<char> {
    match backend {
        ClipboardBackend::WlCopy => "wl-copy"@,
        ClipboardBackend::Xclip => "xclip"@,
        ClipboardBackend::Xsel => "xsel"@,
    }
}

impl ClipboardBackend {
    /// The command to run.
    pub fn copy_cmd(&self) -> (r: &'static str)
        ensures
            r@ == backend_command(*self),
    {
        match self {
            ClipboardBackend::WlCopy => "wl-copy",
            ClipboardBackend::Xclip => "xclip",
            ClipboardBackend::Xsel => "xsel",
        }
    }

    /// The name of the backend, which is that of its command.
    pub fn name(&self) -> (r: &'static str)
        ensures
            r@ == backend_command(*self),
    {
        self.copy_cmd()
    }

    /// The arguments of the command.
    pub fn copy_args(&self) -> (r: Vec<&'static str>)
        ensures
            match *self {
                ClipboardBackend::WlCopy => r@.len() == 0,
                ClipboardBackend::Xclip => r@.len() == 2 && r@[0]@ == "-selection"@ && r@[1]@
                    == "clipboard"@,
                ClipboardBackend::Xsel => r@.len() == 2 && r@[0]@ == "--clipboard"@ && r@[1]@
                    == "--input"@,
            },
    {
        let mut args: Vec<&'static str> = Vec::new();
        match self {
            ClipboardBackend::WlCopy => {},
            ClipboardBackend::Xclip => {
                args.push("-selection");
                args.push("clipboard");
            },
            ClipboardBackend::Xsel => {
                args.push("--clipboard");
                args.push("--input");
            },
        }
        args
    }

    /// Whether the text goes to the input of the command. It does for all.
    pub fn use_stdin(&self) -> (r: bool)
        ensures
            r,
    {
        true
    }
}

/// The backends in the order in which they are tried: `wl-copy`, `xclip`,
/// `xsel`.
pub fn clipboard_backends() -> (r: Vec<ClipboardBackend>)
    ensures
        r@ == seq![ClipboardBackend::WlCopy, ClipboardBackend::Xclip, ClipboardBackend::Xsel],
{
    let mut backends: Vec<ClipboardBackend> = Vec::new();
    backends.push(ClipboardBackend::WlCopy);
    backends.push(ClipboardBackend::Xclip);
    backends.push(ClipboardBackend::Xsel);
    assert(backends@ =~= seq![
        ClipboardBackend::WlCopy,
        ClipboardBackend::Xclip,
        ClipboardBackend::Xsel,
    ]);
    backends
}

/// Whether a copy of `text` has anything to do: empty text is not copied.
pub fn needs_copy(text: &str) -> (r: bool)
    ensures
        r == (text@.len() > 0),
{
    text.unicode_len() != 0
}

} // verus!
