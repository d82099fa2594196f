use zenit::assets::shader_loader::{load_shader, LevelWgslShader, ShaderLoadError};

#[test]
fn load_shader_gives_name_and_code() {
    let shader = LevelWgslShader { name: Some("skybox".to_string()), code: Some("fn main() {}".to_string()) };
    match load_shader(Ok(shader)) {
        Ok((name, source)) => {
            assert_eq!(name, "skybox");
            assert_eq!(source.name, "skybox");
            assert_eq!(source.code, "fn main() {}");
        }
        Err(_) => panic!("expected a shader"),
    }
}

#[test]
fn load_shader_reports_each_error() {
    let parse = load_shader(Err(anyhow::Error::msg("bad node")));
    assert!(matches!(parse, Err(ShaderLoadError::ParseError(ref e)) if e.to_string() == "bad node"));

    let unnamed = LevelWgslShader { name: None, code: None };
    assert!(matches!(load_shader(Ok(unnamed)), Err(ShaderLoadError::BadName)));

    let no_code = LevelWgslShader { name: Some("x".to_string()), code: None };
    assert!(matches!(load_shader(Ok(no_code)), Err(ShaderLoadError::BadCode)));
}
