use slint_ohos::error::PlatformError;
use slint_ohos::status::{
    async_plus_100, egl_status, init_slint, slint_event_proxy, sum, DeliveryOutcome, InitOutcome, UiOutcome,
};

#[test]
fn sums() {
    assert_eq!(sum(1, 2), 103);
    assert_eq!(sum(-100, 0), 0);
    assert_eq!(async_plus_100(5), 215);
}

#[test]
fn egl_status_codes() {
    assert_eq!(egl_status(&Ok(1)), 0);
    assert_eq!(egl_status(&Err(PlatformError::Other("x".to_string()))), -1);
}

#[test]
fn event_proxy_reports() {
    assert_eq!(slint_event_proxy(&DeliveryOutcome::Sent), (0, "事件发送成功".to_string()));
    assert_eq!(
        slint_event_proxy(&DeliveryOutcome::NoSender),
        (-1, "事件发送失败,没有找到发送端".to_string())
    );
    assert_eq!(
        slint_event_proxy(&DeliveryOutcome::SendFailed("sending on a closed channel".to_string())),
        (-1, "事件发送失败sending on a closed channel".to_string())
    );
    assert_eq!(
        slint_event_proxy(&DeliveryOutcome::LockFailed("poisoned".to_string())),
        (-1, "事件发送失败poisoned".to_string())
    );
}

#[test]
fn init_reports() {
    assert_eq!(
        init_slint(&InitOutcome::BackendCreated { platform: Ok(()), ui: UiOutcome::Ran }),
        (0, "运行成功".to_string())
    );
    assert_eq!(
        init_slint(&InitOutcome::BackendCreated {
            platform: Err("SetPlatformError".to_string()),
            ui: UiOutcome::Ran
        }),
        (0, "运行成功".to_string())
    );
    assert_eq!(
        init_slint(&InitOutcome::BackendCreated {
            platform: Ok(()),
            ui: UiOutcome::BuildFailed("NoPlatform".to_string())
        }),
        (-1, "构建失败:NoPlatform".to_string())
    );
    assert_eq!(
        init_slint(&InitOutcome::BackendCreated {
            platform: Err("AlreadySet".to_string()),
            ui: UiOutcome::RunFailed("Other(\"x\")".to_string())
        }),
        (-1, "运行失败:Other(\"x\")".to_string())
    );
    assert_eq!(
        init_slint(&InitOutcome::BackendFailed("Other(\"boom\")".to_string())),
        (0, "Other(\"boom\")".to_string())
    );
}
