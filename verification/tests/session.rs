use panes::{
    from_js_class, init, init_ex, init_to, load_js_classes, load_js_module, new_pane,
    new_styled_pane, AbsoluteRect, DivHandle, HostAction, HostReply, JsClass, JsClassHandle,
    LocalRect, NodeRef, Pane, PanesError, Ratio, Reply, Session, Transform,
};
use std::collections::HashMap;

fn ready(pos: (u32, u32), size: Option<(u32, u32)>) -> Session {
    let mut session = Session::new();
    init_ex(&mut session, Some("root"), pos, size).unwrap();
    assert_eq!(session.finish(Ok(HostReply::Node(NodeRef(100)))), Ok(Reply::Done));
    session
}

fn add(session: &mut Session, x: u32, y: u32, w: u32, h: u32, node: u64) -> DivHandle {
    new_pane(session, x, y, w, h, "<p>hi</p>").unwrap();
    match session.finish(Ok(HostReply::Node(NodeRef(node)))).unwrap() {
        Reply::Pane(handle) => handle,
        other => panic!("no pane was handed out: {:?}", other),
    }
}

fn settle(session: &mut Session) {
    assert_eq!(session.finish(Ok(HostReply::Done)), Ok(Reply::Done));
}

const STYLES: &str = "\n    .pane {\n        position: absolute;\n        display: unset;\n        z-index: 1;\n        overflow: hidden;\n    }\n    ";

#[test]
fn a_new_session_is_idle_and_uninitialised() {
    let session = Session::new();
    assert!(!session.is_locked());
    assert!(!session.is_initialized());
    assert_eq!(session.tickets(), 0);
    assert_eq!(session.transform(), None);
}

#[test]
fn init_mounts_to_the_body() {
    let mut session = Session::new();
    let work = init(&mut session).unwrap();
    assert_eq!(
        work,
        vec![HostAction::Mount { root_id: None, stylesheet: STYLES.to_string() }]
    );
    assert!(session.is_locked());
    assert!(!session.is_initialized());
    assert_eq!(session.finish(Ok(HostReply::Node(NodeRef(1)))), Ok(Reply::Done));
    assert!(!session.is_locked());
    assert!(session.is_initialized());
    assert_eq!(session.transform(), Some(Transform::at((0, 0))));
}

#[test]
fn init_to_mounts_to_an_element() {
    let mut session = Session::new();
    let work = init_to(&mut session, "div-root").unwrap();
    assert_eq!(
        work,
        vec![HostAction::Mount {
            root_id: Some("div-root".to_string()),
            stylesheet: STYLES.to_string()
        }]
    );
    settle_with_root(&mut session);
    assert_eq!(session.transform(), Some(Transform::at((0, 0))));
}

fn settle_with_root(session: &mut Session) {
    assert_eq!(session.finish(Ok(HostReply::Node(NodeRef(1)))), Ok(Reply::Done));
}

#[test]
fn init_ex_keeps_origin_and_reference_size() {
    let mut session = Session::new();
    init_ex(&mut session, None, (30, 40), Some((1280, 720))).unwrap();
    settle_with_root(&mut session);
    assert_eq!(
        session.transform(),
        Some(Transform {
            ox: 30,
            oy: 40,
            zx: Ratio { num: 1, den: 1 },
            zy: Ratio { num: 1, den: 1 }
        })
    );
    panes::resize(&mut session, 640, 1440).unwrap();
    settle(&mut session);
    assert_eq!(
        session.transform(),
        Some(Transform {
            ox: 30,
            oy: 40,
            zx: Ratio { num: 640, den: 1280 },
            zy: Ratio { num: 1440, den: 720 }
        })
    );
}

#[test]
fn double_init_is_refused() {
    let mut session = ready((0, 0), None);
    assert_eq!(init(&mut session), Err(PanesError::AlreadyInitialized));
    assert_eq!(init_to(&mut session, "x"), Err(PanesError::AlreadyInitialized));
    assert_eq!(
        init_ex(&mut session, None, (1, 1), Some((2, 2))),
        Err(PanesError::AlreadyInitialized)
    );
    assert!(!session.is_locked());
    assert_eq!(session.transform(), Some(Transform::at((0, 0))));
}

#[test]
fn every_operation_needs_an_initialised_session() {
    let mut session = Session::new();
    let mut h = DivHandle(0);
    assert_eq!(new_pane(&mut session, 0, 0, 1, 1, ""), Err(PanesError::NotInitialized));
    assert_eq!(
        new_styled_pane(&mut session, 0, 0, 1, 1, "", &[], &[]),
        Err(PanesError::NotInitialized)
    );
    assert_eq!(h.hide_pane(&mut session), Err(PanesError::NotInitialized));
    assert_eq!(h.show(&mut session), Err(PanesError::NotInitialized));
    assert_eq!(h.reposition(&mut session, 1, 1), Err(PanesError::NotInitialized));
    assert_eq!(h.resize(&mut session, 1, 1), Err(PanesError::NotInitialized));
    assert_eq!(
        h.reposition_and_resize(&mut session, 1, 1, 1, 1),
        Err(PanesError::NotInitialized)
    );
    assert_eq!(h.delete(&mut session), Err(PanesError::NotInitialized));
    assert_eq!(h.set_css(&session, "a", "b"), Err(PanesError::NotInitialized));
    assert_eq!(h.add_class(&session, "a"), Err(PanesError::NotInitialized));
    assert_eq!(h.remove_class(&session, "a"), Err(PanesError::NotInitialized));
    assert_eq!(h.parent_element(&session), Err(PanesError::NotInitialized));
    assert_eq!(panes::reposition(&mut session, 1, 1), Err(PanesError::NotInitialized));
    assert_eq!(panes::resize(&mut session, 1, 1), Err(PanesError::NotInitialized));
    assert_eq!(
        load_js_classes(&mut session, &["A"], "./a.js"),
        Err(PanesError::NotInitialized)
    );
    assert_eq!(
        from_js_class(&mut session, 0, 0, 1, 1, JsClassHandle { index: 0 }),
        Err(PanesError::NotInitialized)
    );
    assert_eq!(
        JsClass::preregistered(&mut session, "A"),
        Err(PanesError::NotInitialized)
    );
    assert_eq!(session.get(&h), Err(PanesError::NotInitialized));
    assert_eq!(session.placement(&h), Err(PanesError::NotInitialized));
    assert!(!session.is_locked());
    assert!(!session.is_initialized());
}

#[test]
fn the_guard_refuses_a_second_operation() {
    let mut session = ready((0, 0), None);
    let mut h = add(&mut session, 1, 1, 1, 1, 1);
    h.hide_pane(&mut session).unwrap();
    assert!(session.is_locked());
    assert_eq!(h.show(&mut session), Err(PanesError::Locked));
    assert_eq!(h.hide_pane(&mut session), Err(PanesError::Locked));
    assert_eq!(h.reposition(&mut session, 1, 1), Err(PanesError::Locked));
    assert_eq!(h.delete(&mut session), Err(PanesError::Locked));
    assert_eq!(h.set_css(&session, "a", "b"), Err(PanesError::Locked));
    assert_eq!(h.parent_element(&session), Err(PanesError::Locked));
    assert_eq!(new_pane(&mut session, 0, 0, 1, 1, ""), Err(PanesError::Locked));
    assert_eq!(panes::reposition(&mut session, 1, 1), Err(PanesError::Locked));
    assert_eq!(panes::resize(&mut session, 1, 1), Err(PanesError::Locked));
    assert_eq!(init(&mut session), Err(PanesError::Locked));
    assert_eq!(
        load_js_module(&mut session, String::new()),
        Err(PanesError::Locked)
    );
    assert_eq!(session.get(&h), Err(PanesError::Locked));
    settle(&mut session);
    assert!(!session.is_locked());
    assert_eq!(session.get(&h).unwrap().displayed, false);
}

#[test]
fn the_guard_comes_before_the_lifecycle() {
    let mut session = Session::new();
    init(&mut session).unwrap();
    assert_eq!(new_pane(&mut session, 0, 0, 1, 1, ""), Err(PanesError::Locked));
    assert_eq!(init(&mut session), Err(PanesError::Locked));
}

#[test]
fn a_failed_mount_leaves_the_session_uninitialised() {
    let mut session = Session::new();
    init_to(&mut session, "nowhere").unwrap();
    assert_eq!(
        session.finish(Err(PanesError::MissingRoot("nowhere".to_string()))),
        Err(PanesError::MissingRoot("nowhere".to_string()))
    );
    assert!(!session.is_locked());
    assert!(!session.is_initialized());
    init(&mut session).unwrap();
    settle_with_root(&mut session);
    assert!(session.is_initialized());
}

#[test]
fn new_pane_plans_the_display_object() {
    let mut session = ready((5, 6), None);
    let work = new_pane(&mut session, 10, 20, 30, 40, "<b>x</b>").unwrap();
    assert_eq!(
        work,
        vec![HostAction::CreateNode {
            class_name: "div-rs".to_string(),
            html: "<b>x</b>".to_string(),
            style: String::new(),
            rect: AbsoluteRect { x: 20, y: 32, w: 30, h: 40 },
            component: None,
        }]
    );
    assert_eq!(
        session.finish(Ok(HostReply::Node(NodeRef(9)))),
        Ok(Reply::Pane(DivHandle(0)))
    );
    assert_eq!(
        session.get(&DivHandle(0)),
        Ok(Pane {
            node: NodeRef(9),
            displayed: true,
            local: LocalRect { x: 15, y: 26, w: 30, h: 40 }
        })
    );
}

#[test]
fn new_styled_pane_writes_classes_and_styles() {
    let mut session = ready((0, 0), None);
    let work = new_styled_pane(
        &mut session,
        0,
        0,
        1000,
        1000,
        "Some text",
        &["my-class", "other"],
        &[("color", "red"), ("border", "1px solid")],
    )
    .unwrap();
    assert_eq!(
        work,
        vec![HostAction::CreateNode {
            class_name: "div-rsmy-class other".to_string(),
            html: "Some text".to_string(),
            style: "color: red; border: 1px solid;".to_string(),
            rect: AbsoluteRect { x: 0, y: 0, w: 1000, h: 1000 },
            component: None,
        }]
    );
}

#[test]
fn a_failed_creation_registers_nothing() {
    let mut session = ready((0, 0), None);
    new_pane(&mut session, 0, 0, 1, 1, "").unwrap();
    assert_eq!(
        session.finish(Err(PanesError::JsError("no".to_string()))),
        Err(PanesError::JsError("no".to_string()))
    );
    assert!(!session.is_locked());
    assert_eq!(session.get(&DivHandle(0)), Err(PanesError::NotAllocated));
    assert_eq!(add(&mut session, 0, 0, 1, 1, 3), DivHandle(0));
}

#[test]
fn a_reply_of_the_wrong_kind_is_a_cast_error() {
    let mut session = ready((0, 0), None);
    new_pane(&mut session, 0, 0, 1, 1, "").unwrap();
    assert_eq!(session.finish(Ok(HostReply::Done)), Err(PanesError::JsCastError));
    assert!(!session.is_locked());
    assert_eq!(session.get(&DivHandle(0)), Err(PanesError::NotAllocated));

    let h = add(&mut session, 0, 0, 1, 1, 1);
    h.hide_pane(&mut session).unwrap();
    assert_eq!(
        session.finish(Ok(HostReply::Exists(true))),
        Err(PanesError::JsCastError)
    );
    assert_eq!(session.get(&h).unwrap().displayed, true);

    let mut fresh = Session::new();
    init(&mut fresh).unwrap();
    assert_eq!(fresh.finish(Ok(HostReply::Done)), Err(PanesError::JsCastError));
    assert!(!fresh.is_initialized());
}

#[test]
fn finish_without_an_operation_changes_nothing() {
    let mut session = ready((1, 2), None);
    assert_eq!(session.finish(Ok(HostReply::Done)), Ok(Reply::Done));
    assert_eq!(session.finish(Ok(HostReply::Node(NodeRef(4)))), Ok(Reply::Done));
    assert_eq!(
        session.finish(Err(PanesError::MissingChild)),
        Err(PanesError::MissingChild)
    );
    assert!(session.is_initialized());
    assert!(!session.is_locked());
    assert_eq!(session.transform(), Some(Transform::at((1, 2))));
}

#[test]
fn hide_and_show_toggle_the_display_object() {
    let mut session = ready((0, 0), None);
    let h = add(&mut session, 1, 1, 1, 1, 7);
    assert_eq!(h.show(&mut session), Ok(vec![]));
    settle(&mut session);
    assert_eq!(
        h.hide_pane(&mut session),
        Ok(vec![HostAction::Detach { node: NodeRef(7) }])
    );
    settle(&mut session);
    assert_eq!(session.get(&h).unwrap().displayed, false);
    assert_eq!(h.hide_pane(&mut session), Ok(vec![]));
    settle(&mut session);
    assert_eq!(
        h.show(&mut session),
        Ok(vec![HostAction::Attach { node: NodeRef(7) }])
    );
    settle(&mut session);
    assert_eq!(session.get(&h).unwrap().displayed, true);
}

#[test]
fn a_failed_detach_keeps_the_pane_shown() {
    let mut session = ready((0, 0), None);
    let h = add(&mut session, 1, 1, 1, 1, 7);
    h.hide_pane(&mut session).unwrap();
    assert_eq!(
        session.finish(Err(PanesError::MissingChild)),
        Err(PanesError::MissingChild)
    );
    assert_eq!(session.get(&h).unwrap().displayed, true);
}

#[test]
fn deleting_a_hidden_pane_only_releases_it() {
    let mut session = ready((0, 0), None);
    let mut h = add(&mut session, 1, 1, 1, 1, 7);
    h.hide_pane(&mut session).unwrap();
    settle(&mut session);
    assert_eq!(
        h.delete(&mut session),
        Ok(vec![HostAction::Release { node: NodeRef(7) }])
    );
    settle(&mut session);
    assert_eq!(session.get(&h), Err(PanesError::UseAfterDelete));
    assert_eq!(h.delete(&mut session), Err(PanesError::UseAfterDelete));
}

#[test]
fn a_failed_deletion_keeps_the_pane() {
    let mut session = ready((0, 0), None);
    let mut h = add(&mut session, 1, 1, 1, 1, 7);
    h.delete(&mut session).unwrap();
    assert_eq!(
        session.finish(Err(PanesError::MissingChild)),
        Err(PanesError::MissingChild)
    );
    assert!(session.get(&h).is_ok());
}

#[test]
fn resize_sets_the_size_and_keeps_the_position() {
    let mut session = ready((3, 4), None);
    let h = add(&mut session, 10, 20, 30, 40, 1);
    let work = h.resize(&mut session, 7, 8).unwrap();
    assert_eq!(
        work,
        vec![HostAction::Place {
            node: NodeRef(1),
            rect: AbsoluteRect { x: 16, y: 28, w: 7, h: 8 }
        }]
    );
    settle(&mut session);
    assert_eq!(
        session.get(&h).unwrap().local,
        LocalRect { x: 13, y: 24, w: 7, h: 8 }
    );
}

#[test]
fn reposition_and_resize_does_both_at_once() {
    let mut session = ready((0, 0), None);
    let h = add(&mut session, 10, 20, 30, 40, 1);
    let work = h.reposition_and_resize(&mut session, 1, 2, 3, 4).unwrap();
    assert_eq!(
        work,
        vec![HostAction::Place {
            node: NodeRef(1),
            rect: AbsoluteRect { x: 11, y: 22, w: 3, h: 4 }
        }]
    );
    settle(&mut session);
    h.reposition(&mut session, 1, 2).unwrap();
    settle(&mut session);
    assert_eq!(
        session.get(&h).unwrap().local,
        LocalRect { x: 12, y: 24, w: 3, h: 4 }
    );
}

#[test]
fn an_update_is_recorded_before_the_host_reports() {
    let mut session = ready((0, 0), None);
    let h = add(&mut session, 10, 20, 30, 40, 1);
    h.resize(&mut session, 1, 1).unwrap();
    assert_eq!(
        session.finish(Err(PanesError::JsError("style".to_string()))),
        Err(PanesError::JsError("style".to_string()))
    );
    assert_eq!(
        session.get(&h).unwrap().local,
        LocalRect { x: 10, y: 20, w: 1, h: 1 }
    );
}

#[test]
fn style_and_class_work_names_the_display_object() {
    let mut session = ready((0, 0), None);
    let h = add(&mut session, 1, 1, 1, 1, 42);
    assert_eq!(
        h.set_css(&session, "color", "blue"),
        Ok(HostAction::SetStyleProperty {
            node: NodeRef(42),
            name: "color".to_string(),
            value: "blue".to_string()
        })
    );
    assert_eq!(
        h.add_class(&session, "big"),
        Ok(HostAction::AddClass { node: NodeRef(42), class: "big".to_string() })
    );
    assert_eq!(
        h.remove_class(&session, "big"),
        Ok(HostAction::RemoveClass { node: NodeRef(42), class: "big".to_string() })
    );
    assert_eq!(h.parent_element(&session), Ok(NodeRef(42)));
    assert_eq!(DivHandle(1).set_css(&session, "a", "b"), Err(PanesError::NotAllocated));
    assert_eq!(DivHandle(1).add_class(&session, "a"), Err(PanesError::NotAllocated));
    assert_eq!(DivHandle(1).remove_class(&session, "a"), Err(PanesError::NotAllocated));
    assert!(!session.is_locked());
}

#[test]
fn resize_without_a_reference_size_is_refused() {
    let mut session = ready((3, 4), None);
    let h = add(&mut session, 1, 1, 10, 10, 1);
    let before = session.transform();
    assert_eq!(panes::resize(&mut session, 200, 200), Err(PanesError::UndefinedSize));
    assert_eq!(session.transform(), before);
    assert!(!session.is_locked());
    assert_eq!(
        session.placement(&h),
        Ok(AbsoluteRect { x: 7, y: 9, w: 10, h: 10 })
    );
}

fn apply(surface: &mut HashMap<NodeRef, AbsoluteRect>, work: &[HostAction]) {
    for action in work {
        if let HostAction::Place { node, rect } = action {
            surface.insert(*node, *rect);
        }
    }
}

#[test]
fn a_global_change_reaches_hidden_panes() {
    let mut surface = HashMap::new();
    let mut session = ready((0, 0), Some((100, 100)));
    let shown = add(&mut session, 10, 10, 10, 10, 1);
    let hidden = add(&mut session, 20, 30, 40, 50, 2);
    surface.insert(NodeRef(1), session.placement(&shown).unwrap());
    surface.insert(NodeRef(2), session.placement(&hidden).unwrap());
    hidden.hide_pane(&mut session).unwrap();
    settle(&mut session);

    let work = panes::reposition(&mut session, 5, 7).unwrap();
    assert_eq!(
        work,
        vec![
            HostAction::Place {
                node: NodeRef(1),
                rect: AbsoluteRect { x: 15, y: 17, w: 10, h: 10 }
            },
            HostAction::Place {
                node: NodeRef(2),
                rect: AbsoluteRect { x: 25, y: 37, w: 40, h: 50 }
            },
        ]
    );
    apply(&mut surface, &work);
    settle(&mut session);

    let work = panes::resize(&mut session, 50, 300).unwrap();
    assert_eq!(
        work,
        vec![
            HostAction::Place {
                node: NodeRef(1),
                rect: AbsoluteRect { x: 10, y: 37, w: 5, h: 30 }
            },
            HostAction::Place {
                node: NodeRef(2),
                rect: AbsoluteRect { x: 15, y: 97, w: 20, h: 150 }
            },
        ]
    );
    apply(&mut surface, &work);
    settle(&mut session);

    assert_eq!(
        hidden.show(&mut session),
        Ok(vec![HostAction::Attach { node: NodeRef(2) }])
    );
    settle(&mut session);
    assert_eq!(surface[&NodeRef(2)], AbsoluteRect { x: 15, y: 97, w: 20, h: 150 });
    assert_eq!(session.placement(&hidden), Ok(surface[&NodeRef(2)]));
    assert_eq!(session.placement(&shown), Ok(surface[&NodeRef(1)]));
}

#[test]
fn a_pane_keeps_the_origin_of_its_creation() {
    let mut session = ready((100, 100), Some((10, 10)));
    let h = add(&mut session, 1, 2, 3, 4, 1);
    assert_eq!(
        session.get(&h).unwrap().local,
        LocalRect { x: 101, y: 102, w: 3, h: 4 }
    );
    assert_eq!(
        session.placement(&h),
        Ok(AbsoluteRect { x: 201, y: 202, w: 3, h: 4 })
    );
    panes::resize(&mut session, 20, 5).unwrap();
    settle(&mut session);
    assert_eq!(
        session.placement(&h),
        Ok(AbsoluteRect { x: 302, y: 151, w: 6, h: 2 })
    );
    panes::reposition(&mut session, 0, 0).unwrap();
    settle(&mut session);
    assert_eq!(
        session.placement(&h),
        Ok(AbsoluteRect { x: 202, y: 51, w: 6, h: 2 })
    );
}

#[test]
fn a_move_stops_at_the_largest_coordinate() {
    let mut session = ready((u32::MAX, 0), None);
    let h = add(&mut session, u32::MAX, 0, 1, 1, 1);
    assert_eq!(session.get(&h).unwrap().local.x, 2 * (u32::MAX as u64));
    h.reposition(&mut session, u32::MAX, 1).unwrap();
    settle(&mut session);
    assert_eq!(
        session.get(&h).unwrap().local,
        LocalRect { x: 3 * (u32::MAX as u64), y: 1, w: 1, h: 1 }
    );
    assert_eq!(
        session.placement(&h),
        Ok(AbsoluteRect { x: 2 * (u32::MAX as u64), y: 1, w: 1, h: 1 })
    );
}

#[test]
fn a_host_failure_is_handed_on_unchanged() {
    let failures = [
        PanesError::MissingBody,
        PanesError::MissingHead,
        PanesError::MissingWindow,
        PanesError::MissingDocument,
        PanesError::MissingRoot("r".to_string()),
        PanesError::MissingChild,
        PanesError::BrowserError("b".to_string()),
        PanesError::JsError("j".to_string()),
        PanesError::JsCastError,
    ];
    for failure in failures {
        let mut session = ready((0, 0), None);
        new_pane(&mut session, 0, 0, 1, 1, "").unwrap();
        assert_eq!(session.finish(Err(failure.clone())), Err(failure));
        assert!(!session.is_locked());
        assert_eq!(session.get(&DivHandle(0)), Err(PanesError::NotAllocated));
    }
}

#[test]
fn handles_rise_over_the_history_of_a_session() {
    let mut session = ready((0, 0), Some((100, 100)));
    let mut issued: Vec<DivHandle> = Vec::new();
    for round in 0..12u64 {
        let mut h = add(&mut session, round as u32, 0, 1, 1, round);
        for earlier in &issued {
            assert!(h.0 > earlier.0);
        }
        issued.push(h);
        if round % 3 == 0 {
            h.delete(&mut session).unwrap();
            settle(&mut session);
        }
        if round % 4 == 1 {
            // a creation that the host fails leaves no handle behind
            new_pane(&mut session, 0, 0, 1, 1, "").unwrap();
            assert!(session.finish(Err(PanesError::JsCastError)).is_err());
            panes::resize(&mut session, 50, 50).unwrap();
            settle(&mut session);
        }
    }
    assert_eq!(
        issued.iter().map(|h| h.0).collect::<Vec<_>>(),
        (0..12usize).collect::<Vec<_>>()
    );
    assert_eq!(session.get(&issued[0]), Err(PanesError::UseAfterDelete));
    assert!(session.get(&issued[1]).is_ok());
    assert_eq!(session.get(&DivHandle(12)), Err(PanesError::NotAllocated));
}
