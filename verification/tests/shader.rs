use rtengine::shader::stage_of_extension;
use rtengine::shader::Shader;
use rtengine::shader::ShaderBuilder;
use rtengine::shader::ShaderError;
use rtengine::shader::ShaderType;

#[test]
fn known_extensions_name_their_stage() {
    assert_eq!(ShaderType::from_ext("vert"), Ok(ShaderType::Vertex));
    assert_eq!(ShaderType::from_ext("frag"), Ok(ShaderType::Fragment));
}

#[test]
fn other_extensions_come_back_as_the_error() {
    assert_eq!(ShaderType::from_ext("glsl"), Err(String::from("glsl")));
    assert_eq!(ShaderType::from_ext(""), Err(String::new()));
    assert_eq!(ShaderType::from_ext("Vert"), Err(String::from("Vert")));
    assert_eq!(ShaderType::from_ext("vertex"), Err(String::from("vertex")));
    assert_eq!(ShaderType::from_ext("fra"), Err(String::from("fra")));
    assert_eq!(ShaderType::from_ext("frág"), Err(String::from("frág")));
}

#[test]
fn stage_of_a_path_extension() {
    match stage_of_extension(Some("vert")) {
        Ok(stage) => assert_eq!(stage, ShaderType::Vertex),
        Err(_) => panic!("vert was refused"),
    }
    match stage_of_extension(Some("frag")) {
        Ok(stage) => assert_eq!(stage, ShaderType::Fragment),
        Err(_) => panic!("frag was refused"),
    }
    match stage_of_extension(Some("comp")) {
        Err(ShaderError::UnknownExtension(e)) => assert_eq!(e, "comp"),
        _ => panic!("comp should be unknown"),
    }
    match stage_of_extension(None) {
        Err(ShaderError::MissingExtension) => {}
        _ => panic!("a path without extension should be refused"),
    }
}

#[test]
fn extension_of_a_real_path_names_its_stage() {
    let path = std::path::Path::new("shaders/raytracing.frag");
    let ext = path.extension().and_then(|e| e.to_str());
    match stage_of_extension(ext) {
        Ok(stage) => assert_eq!(stage, ShaderType::Fragment),
        Err(_) => panic!("frag was refused"),
    }
    let bare = std::path::Path::new("shaders/raytracing");
    let ext = bare.extension().and_then(|e| e.to_str());
    assert!(matches!(stage_of_extension(ext), Err(ShaderError::MissingExtension)));
}

#[test]
fn compiled_stages_join_the_pipeline_in_order() {
    let builder = ShaderBuilder::new(7);
    assert_eq!(builder.pid(), 7);
    assert!(builder.shaders().is_empty());
    let builder = builder.compile(21, Ok(())).unwrap();
    let builder = builder.compile(22, Ok(())).unwrap();
    assert_eq!(builder.shaders(), &vec![21, 22]);
    assert_eq!(builder.pid(), 7);
    match builder.link(Ok(())) {
        Ok(shader) => assert_eq!(shader, Shader { pid: 7 }),
        Err(_) => panic!("linking was reported to succeed"),
    }
}

#[test]
fn failed_compilation_ends_the_build_with_the_log() {
    let builder = ShaderBuilder::new(7).compile(21, Ok(())).unwrap();
    match builder.compile(22, Err(String::from("0:3: syntax error"))) {
        Err(ShaderError::CompilationFailed(log)) => assert_eq!(log, "0:3: syntax error"),
        _ => panic!("the failure was not reported"),
    }
}

#[test]
fn failed_link_ends_the_build_with_the_log() {
    let builder = ShaderBuilder::new(7).compile(21, Ok(())).unwrap();
    match builder.link(Err(String::from("unresolved symbol"))) {
        Err(ShaderError::LinkFailed(log)) => assert_eq!(log, "unresolved symbol"),
        _ => panic!("the failure was not reported"),
    }
}
