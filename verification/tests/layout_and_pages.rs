use multimeter_gui::sensor_data::DiskInfo;
use multimeter_gui::views::actions::{tool_label, tool_label_from, ActionsView};
use multimeter_gui::views::card::{CardRows, CardSlot, CardWidth, Placement, RowEnd};
use multimeter_gui::views::dashboard::disk_row_titles;
use multimeter_gui::NavTab;

/// Places one card the way the card panel does and returns its slot and row.
fn place(rows: &mut CardRows, width: CardWidth) -> (CardSlot, usize) {
    if rows.needs_new_row(width) {
        rows.advance_row();
    }
    let slot = rows.slot(width);
    let row = rows.row_index;
    match rows.finish_card(width) {
        RowEnd::KeepOpen | RowEnd::Nothing => {}
        RowEnd::Close | RowEnd::DividerThenClose => rows.advance_row(),
    }
    (slot, row)
}

#[test]
fn card_rows_pair_halves() {
    let mut rows = CardRows::begin();
    assert_eq!(place(&mut rows, CardWidth::Half), (CardSlot::LeftHalf, 0));
    assert_eq!(rows.row_half_count, 1);
    assert_eq!(place(&mut rows, CardWidth::Half), (CardSlot::RightHalf, 0));
    assert_eq!(rows.row_half_count, 0);
    assert_eq!(place(&mut rows, CardWidth::Half), (CardSlot::LeftHalf, 1));
    // a full card after a lone half starts a new row and closes its own
    assert_eq!(place(&mut rows, CardWidth::Full), (CardSlot::Full, 2));
    assert_eq!(place(&mut rows, CardWidth::Full), (CardSlot::Full, 3));
    assert_eq!(place(&mut rows, CardWidth::Half), (CardSlot::LeftHalf, 4));
    assert_eq!(rows.row_index, 4);
}

#[test]
fn card_rows_place_composes_steps() {
    let mut rows = CardRows::begin();
    assert_eq!(
        rows.place(CardWidth::Half),
        Placement { new_row: false, slot: CardSlot::LeftHalf, end: RowEnd::KeepOpen, row: 0 }
    );
    assert_eq!(
        rows.place(CardWidth::Half),
        Placement { new_row: false, slot: CardSlot::RightHalf, end: RowEnd::DividerThenClose, row: 0 }
    );
    assert_eq!((rows.row_index, rows.row_half_count), (1, 0));
    assert_eq!(
        rows.place(CardWidth::Half),
        Placement { new_row: false, slot: CardSlot::LeftHalf, end: RowEnd::KeepOpen, row: 1 }
    );
    assert_eq!(
        rows.place(CardWidth::Full),
        Placement { new_row: true, slot: CardSlot::Full, end: RowEnd::Close, row: 2 }
    );
    assert_eq!((rows.row_index, rows.row_half_count), (3, 0));
    // the helper that strings the steps together agrees with `place`
    let mut a = CardRows::begin();
    let mut b = CardRows::begin();
    for w in [CardWidth::Half, CardWidth::Full, CardWidth::Half, CardWidth::Half, CardWidth::Full] {
        let p = a.place(w);
        assert_eq!((p.slot, p.row), place(&mut b, w));
        assert_eq!((a.row_index, a.row_half_count), (b.row_index, b.row_half_count));
    }
}

#[test]
fn card_rows_finish_reports() {
    let mut rows = CardRows::begin();
    assert!(!rows.needs_new_row(CardWidth::Full));
    assert_eq!(rows.finish_card(CardWidth::Half), RowEnd::KeepOpen);
    assert!(rows.needs_new_row(CardWidth::Full));
    assert!(!rows.needs_new_row(CardWidth::Half));
    assert_eq!(rows.finish_card(CardWidth::Half), RowEnd::DividerThenClose);
    assert!(rows.needs_new_row(CardWidth::Half));
    // a third half without a new row changes nothing more
    assert_eq!(rows.finish_card(CardWidth::Half), RowEnd::Nothing);
    assert_eq!(rows.row_half_count, 3);
    assert_eq!(rows.finish_card(CardWidth::Full), RowEnd::Close);
}

fn disk(removable: bool) -> DiskInfo {
    let mut d = DiskInfo::default();
    d.is_removable = removable;
    d
}

#[test]
fn disk_titles_count_each_kind() {
    let disks = vec![disk(false), disk(true), disk(false), disk(false), disk(true)];
    assert_eq!(
        disk_row_titles(&disks),
        vec!["Disk 0", "Removable 0", "Disk 1", "Disk 2", "Removable 1"]
    );
    assert!(disk_row_titles(&Vec::new()).is_empty());
    let many: Vec<DiskInfo> = (0..12).map(|_| disk(false)).collect();
    assert_eq!(disk_row_titles(&many)[11], "Disk 11");
}

#[test]
fn nav_tabs() {
    assert_eq!(
        NavTab::ALL,
        [NavTab::Dashboard, NavTab::Actions, NavTab::Tools, NavTab::Settings]
    );
    assert_eq!(NavTab::default(), NavTab::Dashboard);
    assert_eq!(NavTab::Dashboard.label_key(), "tab_dashboard");
    assert_eq!(NavTab::Actions.label_key(), "tab_actions");
    assert_eq!(NavTab::Tools.label_key(), "tab_tools");
    assert_eq!(NavTab::Settings.label_key(), "tab_settings");
}

#[test]
fn actions_tools_load_once() {
    let mut view = ActionsView::default();
    assert!(view.tools.is_none());
    assert!(view.needs_tools());
    assert!(view.tool_list().is_empty());
    view.ensure_tools(None);
    assert_eq!(view.tools, Some(Vec::new()));
    view.ensure_tools(Some(vec!["tools/cpuburn".to_string()]));
    assert_eq!(view.tools, Some(Vec::new()));

    let mut view = ActionsView::default();
    view.ensure_tools(Some(vec!["tools/a".to_string(), "tools/b".to_string()]));
    assert!(!view.needs_tools());
    view.ensure_tools(None);
    assert_eq!(view.tools, Some(vec!["tools/a".to_string(), "tools/b".to_string()]));
    assert_eq!(view.tool_list(), &["tools/a".to_string(), "tools/b".to_string()]);
}

#[test]
fn tool_labels() {
    assert_eq!(tool_label("externals/linux_tools/cpuburn"), "cpuburn");
    assert_eq!(tool_label("stress.sh"), "stress.sh");
    assert_eq!(tool_label("tools/dir/"), "dir");
    assert_eq!(tool_label("tools/.."), "tools/..");
    assert_eq!(tool_label_from("a/b", None), "a/b");
    assert_eq!(tool_label_from("a/b", Some("b".to_string())), "b");
}
