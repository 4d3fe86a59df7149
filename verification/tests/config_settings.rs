use rust_gdx::config::ApplicationGDXConfig;

#[test]
fn it_works() {
}

#[test]
fn default_config() {
    let config = ApplicationGDXConfig::new();
    assert_eq!(config.fps(), 60);
    assert_eq!(config.resizable(), false);
    assert_eq!(config.screen_size(), (800, 600));
    assert_eq!(config.title(), "Rust GDX Launcher");
    assert_eq!(config.vsync(), true);
}

#[test]
fn builder_overrides() {
    let config = ApplicationGDXConfig::new()
        .with_fps(30)
        .with_resizable(true)
        .with_screen_size((1280, 720))
        .with_title("Demo")
        .with_vsync(false);
    assert_eq!(config.fps(), 30);
    assert_eq!(config.resizable(), true);
    assert_eq!(config.screen_size(), (1280, 720));
    assert_eq!(config.title(), "Demo");
    assert_eq!(config.vsync(), false);
}
