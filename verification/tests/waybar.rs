use wisprarch::waybar::{inject_module, is_installed, module_text, remove_module, WaybarError};

const MODULE: &str = r#"
  "custom/wisprarch": {
    "exec": "while true; do curl -s 'http://127.0.0.1:3737/status?style=waybar' 2>/dev/null || echo '{\"text\":\"󰍬\",\"class\":\"wisprarch-offline\"}'; sleep 0.2; done",
    "exec-on-event": false,
    "return-type": "json",
    "on-click": "curl -X POST http://127.0.0.1:3737/toggle",
    "on-click-right": "curl -X POST http://127.0.0.1:3737/input-method/cycle",
    "tooltip": true
  }"#;

/// The injection written with the string functions of the standard library.
fn inject_by_std(content: &str) -> Option<String> {
    let mut lines: Vec<String> = content.lines().map(|l| l.to_string()).collect();
    let mut added_to_modules = false;
    let mut added_definition = false;
    for line in &mut lines {
        if !added_to_modules
            && (line.contains("\"modules-right\"") || line.contains("\"modules-center\""))
        {
            if let Some(bracket_pos) = line.find('[') {
                let (before, after) = line.split_at(bracket_pos + 1);
                *line = format!("{}\"custom/wisprarch\", {}", before, after.trim_start());
                added_to_modules = true;
            }
        }
    }
    let mut result = lines.join("\n");
    if let Some(last_brace) = result.rfind('}') {
        let before = &result[..last_brace];
        let before = before.trim_end();
        let before = before.trim_end_matches(',');
        result = format!("{},{}\n}}\n", before, MODULE);
        added_definition = true;
    }
    if !added_to_modules || !added_definition {
        return None;
    }
    Some(result)
}

/// The removal written with the string functions of the standard library.
fn remove_by_std(content: &str) -> String {
    let mut result = content.to_string();
    result = result.replace("\"custom/wisprarch\",", "");
    result = result.replace(",\"custom/wisprarch\"", "");
    result = result.replace("\"custom/wisprarch\"", "");
    let start_marker = "\"custom/wisprarch\":";
    if let Some(start) = result.find(start_marker) {
        let after_start = &result[start..];
        let mut brace_depth = 0;
        let mut end_byte_pos = 0;
        for (byte_pos, c) in after_start.char_indices() {
            if c == '{' {
                brace_depth += 1;
            } else if c == '}' {
                brace_depth -= 1;
                if brace_depth == 0 {
                    end_byte_pos = byte_pos + c.len_utf8();
                    break;
                }
            }
        }
        if end_byte_pos > 0 {
            let before = &result[..start];
            let after = &result[start + end_byte_pos..];
            let before = before.trim_end_matches(',').trim_end();
            let after = after.trim_start_matches(',');
            result = format!("{}{}", before, after);
        }
    }
    result
}

fn configs() -> Vec<String> {
    let mut all: Vec<String> = [
        "{\n  \"modules-right\": [\"clock\", \"battery\"],\n  \"clock\": {\"format\": \"{:%H:%M}\"}\n}\n",
        "{\n  \"modules-left\": [\"a\"],\n  \"modules-center\": [   \"window\"],\n  \"modules-right\": [\"clock\"]\n}",
        "{ \"modules-right\": [], }",
        "{\r\n  \"modules-right\":\r\n  [\"clock\"]\r\n}\r\n",
        "{\n  \"modules-right\": [\"clock\"],\n  \"x\": 1,,, \n\t}\n// tail",
        "// \"modules-right\" in a comment\n{\n \"modules-right\": [ \"clock\" ]\n}",
        "\"modules-right\": [\"clock\"]",
        "{ \"modules-left\": [\"clock\"] }",
        "{}",
        "",
        "}",
        "\"modules-center\": [[]] }}",
        "{\n  \"modules-right\": [\"рус\", \"日本\"],\n  \"é\": {}\n}\n",
        "{\"modules-right\": [\"custom/wisprarch\", \"clock\"], \"custom/wisprarch\": {\"a\": {\"b\": 1}}, \"z\": 2}",
        "{\"modules-right\": [\"clock\",\"custom/wisprarch\"]}",
        "{\"modules-right\": [\"custom/wisprarch\"]}",
        "\"custom/\"custom/wisprarch\"wisprarch\": { {} } ,, tail",
        "a ,, \"custom/\"custom/wisprarch\"wisprarch\": } { x } ,rest",
        "\"custom/\"custom/wisprarch\"wisprarch\": { never closed",
        "\"custom/\"custom/wisprarch\",wisprarch\":{}{}",
        ",\"custom/wisprarch\",\"custom/wisprarch\",",
    ]
    .iter()
    .map(|s| s.to_string())
    .collect();
    // What an installation leaves is a configuration too.
    let installed: Vec<String> = all.iter().filter_map(|c| inject_by_std(c)).collect();
    all.extend(installed);
    all
}

#[test]
fn inject_module_agrees_with_the_standard_library() {
    for config in configs() {
        let expected = inject_by_std(&config).ok_or(WaybarError::Unparsable);
        assert_eq!(inject_module(&config), expected, "injection into {:?}", config);
    }
}

#[test]
fn remove_module_agrees_with_the_standard_library() {
    for config in configs() {
        assert_eq!(remove_module(&config), remove_by_std(&config), "removal from {:?}", config);
    }
}

#[test]
fn inject_module_puts_the_name_first_and_the_definition_last() {
    let config = "{\n  \"modules-right\": [\"clock\"],\n  \"clock\": {}\n}\n";
    let expected = format!(
        "{{\n  \"modules-right\": [\"custom/wisprarch\", \"clock\"],\n  \"clock\": {{}},{}\n}}\n",
        MODULE
    );
    assert_eq!(inject_module(config), Ok(expected));
    assert_eq!(module_text(), MODULE);
    assert_eq!(inject_module("{ \"modules-left\": [] }"), Err(WaybarError::Unparsable));
    assert_eq!(inject_module("\"modules-right\": ["), Err(WaybarError::Unparsable));
    assert_eq!(
        WaybarError::Unparsable.message(),
        "Could not parse Waybar config. Please add manually."
    );
}

#[test]
fn remove_module_takes_the_name_out_of_the_lists() {
    assert_eq!(
        remove_module("{\"modules-right\": [\"custom/wisprarch\", \"clock\"]}"),
        "{\"modules-right\": [ \"clock\"]}"
    );
    assert_eq!(
        remove_module("{\"modules-right\": [\"clock\",\"custom/wisprarch\"]}"),
        "{\"modules-right\": [\"clock\"]}"
    );
    assert_eq!(remove_module("{\"modules-right\": [\"custom/wisprarch\"]}"), "{\"modules-right\": []}");
    assert_eq!(remove_module("nothing to do"), "nothing to do");
}

#[test]
fn is_installed_looks_for_the_name() {
    assert!(is_installed("{\"modules-right\": [\"custom/wisprarch\"]}"));
    assert!(is_installed(MODULE));
    assert!(!is_installed("{\"modules-right\": [\"custom/wispr\"]}"));
    assert!(!is_installed(""));
    for config in configs() {
        assert_eq!(is_installed(&config), config.contains("custom/wisprarch"));
    }
}
