use codex_switch::update::{install_update_and_restart, UpdateAction, UpdateEvent};

fn ready() -> UpdateEvent {
    UpdateEvent::Ready(Ok(()))
}

#[test]
fn elsewhere_the_update_is_installed_before_the_clean_up() {
    let mut u = install_update_and_restart(false);
    assert!(matches!(u.step(UpdateEvent::Begin), UpdateAction::BuildUpdater));
    assert!(matches!(u.step(ready()), UpdateAction::Check));
    assert!(matches!(u.step(UpdateEvent::Checked(Ok(true))), UpdateAction::Download));
    assert!(matches!(u.step(ready()), UpdateAction::Install));
    assert!(matches!(u.step(ready()), UpdateAction::CleanUpForExit));
    assert!(u.installed);
    assert!(matches!(u.step(ready()), UpdateAction::Sleep(100)));
    assert!(matches!(u.step(ready()), UpdateAction::Restart));
}

#[test]
fn on_windows_the_clean_up_comes_first() {
    let mut u = install_update_and_restart(true);
    u.step(UpdateEvent::Begin);
    u.step(ready());
    u.step(UpdateEvent::Checked(Ok(true)));
    assert!(matches!(u.step(ready()), UpdateAction::CleanUpForExit));
    assert!(matches!(u.step(ready()), UpdateAction::Sleep(100)));
    assert!(matches!(u.step(ready()), UpdateAction::Install));
    assert!(matches!(u.step(ready()), UpdateAction::Finish(Ok(true))));
}

#[test]
fn update_failures_and_no_update() {
    let mut u = install_update_and_restart(false);
    u.step(UpdateEvent::Begin);
    u.step(ready());
    assert!(matches!(u.step(UpdateEvent::Checked(Ok(false))), UpdateAction::Finish(Ok(false))));

    let mut u = install_update_and_restart(false);
    u.step(UpdateEvent::Begin);
    match u.step(UpdateEvent::Ready(Err("no endpoint".to_string()))) {
        UpdateAction::Finish(Err(e)) => assert_eq!(e, "初始化更新器失败: no endpoint"),
        _ => panic!("expected the failure"),
    }

    let mut u = install_update_and_restart(false);
    u.step(UpdateEvent::Begin);
    u.step(ready());
    match u.step(UpdateEvent::Checked(Err("offline".to_string()))) {
        UpdateAction::Finish(Err(e)) => assert_eq!(e, "检查更新失败: offline"),
        _ => panic!("expected the failure"),
    }

    let mut u = install_update_and_restart(false);
    u.step(UpdateEvent::Begin);
    u.step(ready());
    u.step(UpdateEvent::Checked(Ok(true)));
    match u.step(UpdateEvent::Ready(Err("503".to_string()))) {
        UpdateAction::Finish(Err(e)) => assert_eq!(e, "下载更新失败: 503"),
        _ => panic!("expected the failure"),
    }

    let mut u = install_update_and_restart(false);
    u.step(UpdateEvent::Begin);
    u.step(ready());
    u.step(UpdateEvent::Checked(Ok(true)));
    u.step(ready());
    match u.step(UpdateEvent::Ready(Err("bad signature".to_string()))) {
        UpdateAction::Finish(Err(e)) => assert_eq!(e, "安装更新失败: bad signature"),
        _ => panic!("expected the failure"),
    }

    let mut u = install_update_and_restart(true);
    u.step(UpdateEvent::Begin);
    u.step(ready());
    u.step(UpdateEvent::Checked(Ok(true)));
    u.step(ready());
    u.step(ready());
    u.step(ready());
    match u.step(UpdateEvent::Ready(Err("x".to_string()))) {
        UpdateAction::Finish(Err(e)) => assert_eq!(
            e,
            "Windows 更新安装失败: x。已执行退出前清理，代理或 Live 接管可能已暂停；请重启应用或重新开启代理后再试。"
        ),
        _ => panic!("expected the failure"),
    }
}
