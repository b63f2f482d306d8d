use chat_cli::editor::{
    edit_mode_for, editor_config, Action, CompletionType, EditMode, Key, KeyBinding, Modifier,
};

#[test]
fn vi_and_vim_give_modal_editing() {
    assert_eq!(edit_mode_for(Some("vi")), EditMode::Vi);
    assert_eq!(edit_mode_for(Some("vim")), EditMode::Vi);
}

#[test]
fn every_other_setting_gives_plain_editing() {
    assert_eq!(edit_mode_for(None), EditMode::Emacs);
    assert_eq!(edit_mode_for(Some("emacs")), EditMode::Emacs);
    assert_eq!(edit_mode_for(Some("")), EditMode::Emacs);
    assert_eq!(edit_mode_for(Some("VI")), EditMode::Emacs);
    assert_eq!(edit_mode_for(Some("vi ")), EditMode::Emacs);
    assert_eq!(edit_mode_for(Some("vimm")), EditMode::Emacs);
    assert_eq!(edit_mode_for(Some("v")), EditMode::Emacs);
}

#[test]
fn the_editor_lists_candidates_and_binds_two_newline_keys() {
    for (setting, mode) in [(None, EditMode::Emacs), (Some("vi"), EditMode::Vi), (Some("x"), EditMode::Emacs)] {
        let config = editor_config(setting);
        assert_eq!(config.edit_mode, mode);
        assert_eq!(config.completion_type, CompletionType::List);
        assert!(config.history_ignore_space);
        assert_eq!(
            config.key_bindings,
            vec![
                KeyBinding { key: Key::Enter, modifier: Modifier::Alt, action: Action::InsertNewline },
                KeyBinding { key: Key::Char('j'), modifier: Modifier::Ctrl, action: Action::InsertNewline },
            ]
        );
    }
}
