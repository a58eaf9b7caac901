use desktop_shortcut::{GenerationError, Generator};

fn fields(executable_path: &str, name: &str, icon_path: Option<&str>, comment: &str) -> Generator {
    Generator {
        executable_path: executable_path.to_string(),
        name: name.to_string(),
        icon_path: icon_path.map(str::to_string),
        comment: comment.to_string(),
    }
}

#[test]
fn new_generator_is_empty() {
    let generator = Generator::new();
    assert_eq!(generator.executable_path, "");
    assert_eq!(generator.name, "");
    assert_eq!(generator.icon_path, None);
    assert_eq!(generator.comment, "");
}

#[test]
fn new_generator_fails_on_the_name_when_the_executable_exists() {
    let generator = Generator::new();
    assert_eq!(generator.generate(true, true), Err(GenerationError::NameEmpty));
}

#[test]
fn minimal_fields_give_the_five_line_descriptor() {
    let generator = fields("/bin/true", "MyApp", None, "");
    assert_eq!(
        generator.generate(true, false),
        Ok("[Desktop Entry]\nVersion=1.0\nType=Application\nName=MyApp\nExec=/bin/true\n".to_string())
    );
}

#[test]
fn all_fields_give_the_seven_line_descriptor() {
    let generator = fields("/usr/bin/gimp", "GIMP", Some("/usr/share/icons/gimp.png"), "Image editor");
    assert_eq!(
        generator.generate(true, true),
        Ok("[Desktop Entry]\nVersion=1.0\nType=Application\nName=GIMP\nExec=/usr/bin/gimp\n\
            Icon=/usr/share/icons/gimp.png\nComment=Image editor\n"
            .to_string())
    );
}

#[test]
fn icon_without_comment() {
    let generator = fields("/bin/true", "A", Some("/i.png"), "");
    assert_eq!(
        generator.generate(true, true),
        Ok("[Desktop Entry]\nVersion=1.0\nType=Application\nName=A\nExec=/bin/true\nIcon=/i.png\n".to_string())
    );
}

#[test]
fn comment_without_icon() {
    let generator = fields("/bin/true", "A", None, "c");
    assert_eq!(
        generator.generate(true, true),
        Ok("[Desktop Entry]\nVersion=1.0\nType=Application\nName=A\nExec=/bin/true\nComment=c\n".to_string())
    );
}

#[test]
fn missing_executable_is_reported_with_its_path() {
    let generator = fields("/does/not/exist", "X", None, "");
    assert_eq!(
        generator.generate(false, false),
        Err(GenerationError::ExecutableNotFound("/does/not/exist".to_string()))
    );
}

#[test]
fn empty_name_is_reported() {
    let generator = fields("/bin/true", "", None, "");
    assert_eq!(generator.generate(true, false), Err(GenerationError::NameEmpty));
}

#[test]
fn missing_icon_is_reported_with_its_path() {
    let generator = fields("/bin/true", "X", Some("/no/icon.png"), "");
    assert_eq!(
        generator.generate(true, false),
        Err(GenerationError::IconNotFound("/no/icon.png".to_string()))
    );
}

#[test]
fn icon_finding_is_not_read_without_an_icon() {
    let generator = fields("/bin/true", "X", None, "");
    assert_eq!(generator.generate(true, false), generator.generate(true, true));
    assert!(generator.generate(true, false).is_ok());
}

#[test]
fn missing_executable_comes_before_missing_icon_and_empty_name() {
    let generator = fields("/gone", "", Some("/gone.png"), "");
    assert_eq!(
        generator.generate(false, false),
        Err(GenerationError::ExecutableNotFound("/gone".to_string()))
    );
}

#[test]
fn missing_icon_comes_before_empty_name() {
    let generator = fields("/bin/true", "", Some("/gone.png"), "");
    assert_eq!(
        generator.generate(true, false),
        Err(GenerationError::IconNotFound("/gone.png".to_string()))
    );
}

#[test]
fn missing_executable_comes_before_empty_name() {
    let generator = fields("/gone", "", None, "");
    assert_eq!(
        generator.generate(false, true),
        Err(GenerationError::ExecutableNotFound("/gone".to_string()))
    );
}

#[test]
fn empty_executable_path_is_judged_by_what_was_found() {
    let generator = fields("", "X", None, "");
    assert_eq!(
        generator.generate(false, false),
        Err(GenerationError::ExecutableNotFound(String::new()))
    );
}

#[test]
fn validate_agrees_with_generate() {
    let cases = [
        fields("/bin/true", "MyApp", None, ""),
        fields("/bin/true", "", None, ""),
        fields("/bin/true", "X", Some("/i.png"), "c"),
        fields("", "", Some(""), ""),
    ];
    for generator in cases.iter() {
        for executable_exists in [false, true] {
            for icon_exists in [false, true] {
                let checked = generator.validate(executable_exists, icon_exists);
                let generated = generator.generate(executable_exists, icon_exists);
                match checked {
                    Ok(()) => assert_eq!(generated, Ok(generator.render())),
                    Err(error) => assert_eq!(generated, Err(error)),
                }
            }
        }
    }
}

#[test]
fn validate_passes_valid_fields() {
    assert_eq!(fields("/bin/true", "MyApp", Some("/i.png"), "").validate(true, true), Ok(()));
}

#[test]
fn generating_twice_gives_the_same_text() {
    let generator = fields("/usr/bin/gimp", "GIMP", Some("/gimp.png"), "Image editor");
    let first = generator.generate(true, true);
    let second = generator.generate(true, true);
    assert!(first.is_ok());
    assert_eq!(first, second);
}

#[test]
fn generating_leaves_the_fields_as_they_were() {
    let generator = fields("/usr/bin/gimp", "GIMP", Some("/gimp.png"), "Image editor");
    let _ = generator.generate(true, true);
    let _ = generator.generate(false, false);
    assert_eq!(generator, fields("/usr/bin/gimp", "GIMP", Some("/gimp.png"), "Image editor"));
}

#[test]
fn values_are_written_as_they_are() {
    let generator = fields("/opt/my app/run --flag=\"x y\"", "Name = with; signs\\n", None, "# 100%");
    assert_eq!(
        generator.render(),
        "[Desktop Entry]\nVersion=1.0\nType=Application\nName=Name = with; signs\\n\n\
         Exec=/opt/my app/run --flag=\"x y\"\nComment=# 100%\n"
    );
}

#[test]
fn values_beyond_ascii_are_kept() {
    let generator = fields("/bin/true", "Éditeur 編集", None, "naïve ☕");
    assert_eq!(
        generator.render(),
        "[Desktop Entry]\nVersion=1.0\nType=Application\nName=Éditeur 編集\nExec=/bin/true\nComment=naïve ☕\n"
    );
}

#[test]
fn render_needs_no_valid_fields() {
    assert_eq!(
        Generator::new().render(),
        "[Desktop Entry]\nVersion=1.0\nType=Application\nName=\nExec=\n"
    );
}

#[test]
fn empty_icon_path_is_still_an_icon() {
    let generator = fields("/bin/true", "A", Some(""), "");
    assert_eq!(
        generator.generate(true, false),
        Err(GenerationError::IconNotFound(String::new()))
    );
    assert_eq!(
        generator.render(),
        "[Desktop Entry]\nVersion=1.0\nType=Application\nName=A\nExec=/bin/true\nIcon=\n"
    );
}

#[test]
fn every_line_ends_with_one_line_feed_and_none_is_indented() {
    let text = fields("/usr/bin/gimp", "GIMP", Some("/gimp.png"), "Image editor").render();
    assert!(text.ends_with('\n'));
    assert!(!text.ends_with("\n\n"));
    let lines: Vec<&str> = text.split('\n').collect();
    assert_eq!(lines.len(), 8);
    assert_eq!(lines[7], "");
    for line in lines[..7].iter() {
        assert!(!line.is_empty());
        assert!(!line.starts_with(' '));
        assert!(!line.starts_with('\t'));
    }
}
