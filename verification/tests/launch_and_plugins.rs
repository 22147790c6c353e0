use desktop_shell::instance::{on_second_launch, WindowOp};
use desktop_shell::plugins::{startup_plugins, Plugin};

#[test]
fn second_launch_raises_the_window() {
    assert_eq!(
        on_second_launch(true),
        vec![WindowOp::Unminimize, WindowOp::Show, WindowOp::Focus]
    );
}

#[test]
fn second_launch_without_window_does_nothing() {
    assert_eq!(on_second_launch(false), Vec::<WindowOp>::new());
}

#[test]
fn plugins_register_in_fixed_order() {
    assert_eq!(
        startup_plugins(),
        vec![Plugin::DeepLink, Plugin::Store, Plugin::SingleInstance, Plugin::OsInfo]
    );
}

#[test]
fn no_plugin_registers_twice() {
    let plugins = startup_plugins();
    for i in 0..plugins.len() {
        for j in (i + 1)..plugins.len() {
            assert_ne!(plugins[i], plugins[j]);
        }
    }
}
