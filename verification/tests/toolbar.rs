use slidegrid::ui::toolbar::ToolbarAction;

#[test]
fn every_button_announces_itself() {
    assert_eq!(ToolbarAction::Play.announcement(), "Play clicked");
    assert_eq!(ToolbarAction::New.announcement(), "New clicked");
    assert_eq!(ToolbarAction::Load.announcement(), "Load clicked");
    assert_eq!(ToolbarAction::Save.announcement(), "Save clicked");
    assert_eq!(ToolbarAction::Help.announcement(), "Help clicked");
    assert_eq!(ToolbarAction::Github.announcement(), "Github clicked");
    assert_eq!(ToolbarAction::Open.announcement(), "Open clicked");
}
