use wisprarch::text_io::DeliveryStep::{
    CopyToClipboard, SimulatePaste, TypeWithWtype, TypeWithYdotool,
};
use wisprarch::text_io::InjectionMethod::{Clipboard, Wtype, Ydotool};
use wisprarch::text_io::PasteAttempt::{
    KdeKlipper, TypeClipboardWithWtype, XdotoolKeys, YdotoolKeys,
};
use wisprarch::text_io::{
    next_paste_step, PasteStep,
    available_methods, clipboard_backends, needs_copy, paste_attempts, plan_injection,
    ydotool_paste_keys, ClipboardBackend, InjectionMethod, Tools,
};

fn tools() -> Tools {
    Tools {
        wayland_session: false,
        kde_desktop: false,
        wl_copy: false,
        wl_paste: false,
        wtype: false,
        ydotool: false,
        xdotool: false,
    }
}

#[test]
fn injection_method_names() {
    assert_eq!(InjectionMethod::Wtype.as_str(), "wtype");
    assert_eq!(InjectionMethod::Ydotool.as_str(), "ydotool");
    assert_eq!(InjectionMethod::Clipboard.as_str(), "clipboard");
    assert_eq!(InjectionMethod::parse("wtype"), Some(InjectionMethod::Wtype));
    assert_eq!(InjectionMethod::parse("ydotool"), Some(InjectionMethod::Ydotool));
    assert_eq!(InjectionMethod::parse("clipboard"), Some(InjectionMethod::Clipboard));
    assert_eq!(InjectionMethod::parse("paste"), Some(InjectionMethod::Clipboard));
    for s in ["", "Wtype", "wtype ", "xdotool", "clip"] {
        assert_eq!(InjectionMethod::parse(s), None);
    }
    for m in [InjectionMethod::Wtype, InjectionMethod::Ydotool, InjectionMethod::Clipboard] {
        assert_eq!(InjectionMethod::parse(m.as_str()), Some(m));
    }
}

#[test]
fn next_available_cycles_through_what_is_installed() {
    let none = tools();
    let both = Tools { wtype: true, ydotool: true, ..tools() };
    let only_w = Tools { wtype: true, ..tools() };
    let only_y = Tools { ydotool: true, ..tools() };
    let cases = [
        (Clipboard, none, Clipboard),
        (Wtype, none, Clipboard),
        (Ydotool, none, Clipboard),
        (Clipboard, both, Wtype),
        (Wtype, both, Ydotool),
        (Ydotool, both, Clipboard),
        (Clipboard, only_w, Wtype),
        (Wtype, only_w, Clipboard),
        (Ydotool, only_w, Clipboard),
        (Clipboard, only_y, Ydotool),
        (Wtype, only_y, Ydotool),
        (Ydotool, only_y, Clipboard),
    ];
    for (from, tools, to) in cases {
        assert_eq!(from.next_available(&tools), to, "{:?} with {:?}", from, tools);
        assert!(to.is_available(&tools));
    }
}

#[test]
fn detect_follows_the_preference_if_it_can() {
    let both = Tools { wtype: true, ydotool: true, ..tools() };
    assert_eq!(InjectionMethod::detect(Some("clipboard"), &both), Clipboard);
    assert_eq!(InjectionMethod::detect(Some("paste"), &both), Clipboard);
    assert_eq!(InjectionMethod::detect(Some("wtype"), &both), Wtype);
    assert_eq!(InjectionMethod::detect(Some("ydotool"), &both), Ydotool);
    assert_eq!(InjectionMethod::detect(Some("xdotool"), &both), Ydotool);
    assert_eq!(InjectionMethod::detect(None, &both), Ydotool);
    let only_w = Tools { wtype: true, ..tools() };
    assert_eq!(InjectionMethod::detect(Some("ydotool"), &only_w), Wtype);
    assert_eq!(InjectionMethod::detect(None, &only_w), Wtype);
    assert_eq!(InjectionMethod::detect(None, &tools()), Clipboard);
    assert_eq!(InjectionMethod::detect(Some("wtype"), &tools()), Clipboard);
    let wayland = Tools { wayland_session: true, wl_copy: true, wtype: true, ydotool: true, ..tools() };
    assert_eq!(InjectionMethod::detect(None, &wayland), Clipboard);
    assert_eq!(InjectionMethod::detect(Some("wtype"), &wayland), Wtype);
    let wayland_without_wl_copy = Tools { wayland_session: true, ydotool: true, ..tools() };
    assert_eq!(InjectionMethod::detect(None, &wayland_without_wl_copy), Ydotool);
}

#[test]
fn available_methods_start_with_the_clipboard() {
    assert_eq!(available_methods(&tools()), vec![Clipboard]);
    assert_eq!(available_methods(&Tools { wtype: true, ..tools() }), vec![Clipboard, Wtype]);
    assert_eq!(available_methods(&Tools { ydotool: true, ..tools() }), vec![Clipboard, Ydotool]);
    assert_eq!(
        available_methods(&Tools { wtype: true, ydotool: true, ..tools() }),
        vec![Clipboard, Wtype, Ydotool]
    );
}

#[test]
fn injection_plans() {
    assert_eq!(plan_injection(InjectionMethod::Wtype, ""), vec![]);
    assert_eq!(plan_injection(InjectionMethod::Clipboard, ""), vec![]);
    assert_eq!(
        plan_injection(InjectionMethod::Wtype, "hi"),
        vec![TypeWithWtype, CopyToClipboard, SimulatePaste]
    );
    assert_eq!(
        plan_injection(InjectionMethod::Ydotool, "hi"),
        vec![TypeWithYdotool, CopyToClipboard, SimulatePaste]
    );
    assert_eq!(plan_injection(InjectionMethod::Clipboard, "hi"), vec![SimulatePaste]);
    assert!(needs_copy("x"));
    assert!(!needs_copy(""));
}

#[test]
fn paste_attempts_keep_their_order() {
    assert_eq!(paste_attempts(&tools()), vec![]);
    let all = Tools {
        wayland_session: true,
        kde_desktop: true,
        wl_copy: true,
        wl_paste: true,
        wtype: true,
        ydotool: true,
        xdotool: true,
    };
    assert_eq!(
        paste_attempts(&all),
        vec![TypeClipboardWithWtype, YdotoolKeys, XdotoolKeys, KdeKlipper]
    );
    assert_eq!(paste_attempts(&Tools { wtype: true, ..tools() }), vec![]);
    assert_eq!(paste_attempts(&Tools { wl_paste: true, ..tools() }), vec![]);
    assert_eq!(
        paste_attempts(&Tools { wtype: true, wl_paste: true, xdotool: true, ..tools() }),
        vec![TypeClipboardWithWtype, XdotoolKeys]
    );
    assert_eq!(
        paste_attempts(&Tools { kde_desktop: true, ydotool: true, ..tools() }),
        vec![YdotoolKeys, KdeKlipper]
    );
    assert_eq!(ydotool_paste_keys(), vec!["key", "125:1", "47:1", "47:0", "125:0"]);
}

#[test]
fn clipboard_backends_and_their_commands() {
    let backends = clipboard_backends();
    assert_eq!(
        backends,
        vec![ClipboardBackend::WlCopy, ClipboardBackend::Xclip, ClipboardBackend::Xsel]
    );
    let commands: Vec<&str> = backends.iter().map(|b| b.copy_cmd()).collect();
    assert_eq!(commands, vec!["wl-copy", "xclip", "xsel"]);
    assert_eq!(ClipboardBackend::WlCopy.copy_args(), Vec::<&str>::new());
    assert_eq!(ClipboardBackend::Xclip.copy_args(), vec!["-selection", "clipboard"]);
    assert_eq!(ClipboardBackend::Xsel.copy_args(), vec!["--clipboard", "--input"]);
    for b in backends {
        assert!(b.use_stdin());
        assert_eq!(b.name(), b.copy_cmd());
    }
}

#[test]
fn a_paste_ends_with_the_first_way_that_succeeds() {
    let plan = vec![TypeClipboardWithWtype, YdotoolKeys, KdeKlipper];
    assert_eq!(next_paste_step(&plan, 0, false), PasteStep::Try(TypeClipboardWithWtype));
    // Before the first try there is no success to end on.
    assert_eq!(next_paste_step(&plan, 0, true), PasteStep::Try(TypeClipboardWithWtype));
    assert_eq!(next_paste_step(&plan, 1, false), PasteStep::Try(YdotoolKeys));
    assert_eq!(next_paste_step(&plan, 1, true), PasteStep::Done { pasted: true });
    assert_eq!(next_paste_step(&plan, 2, false), PasteStep::Try(KdeKlipper));
    assert_eq!(next_paste_step(&plan, 3, true), PasteStep::Done { pasted: true });
    assert_eq!(next_paste_step(&plan, 3, false), PasteStep::Done { pasted: false });
    assert_eq!(next_paste_step(&plan, 9, false), PasteStep::Done { pasted: false });
    assert_eq!(next_paste_step(&Vec::new(), 0, false), PasteStep::Done { pasted: false });
}
