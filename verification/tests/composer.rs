use lighting::compose_shader_source;
use lighting::dispatch_function_source;
use lighting::lights_shader_source;
use lighting::source::LIGHT_SHARED_SOURCE;
use lighting::source::SHARED_SOURCE;
use lighting::Light;
use lighting::LightId;
use lighting::LightingError;
use lighting::Program;

const HEAD: &str = "\n            vec3 calculate_lighting(vec3 camera_position, vec3 surface_color, vec3 position, vec3 normal, float metallic, float roughness, float occlusion)\n            {\n                vec3 color = vec3(0.0, 0.0, 0.0);\n                vec3 view_direction = normalize(camera_position - position);\n                ";
const TAIL: &str = "\n                return color;\n            }\n            ";

fn statement(i: usize) -> String {
    format!(
        "color += calculate_lighting{}(surface_color, position, normal, view_direction, metallic, roughness, occlusion);\n",
        i
    )
}

/// A light that adds a constant colour.
struct Glow {
    level: u32,
}

impl Light for Glow {
    fn shader_source(&self, i: u32) -> Result<String, LightingError> {
        Ok(format!(
            "uniform vec3 glow{};\nvec3 calculate_lighting{}(vec3 surface_color, vec3 position, vec3 normal, vec3 view_direction, float metallic, float roughness, float occlusion)\n{{\n    return glow{} * surface_color;\n}}\n",
            i, i, i
        ))
    }

    fn use_uniforms(&self, program: &mut Program, i: u32) -> Result<(), LightingError> {
        program.use_uniform(&format!("glow{}", i), vec![self.level, self.level, self.level]);
        Ok(())
    }

    fn id(&self) -> LightId {
        LightId(1)
    }
}

/// A light whose configuration is broken: it has no fragment to give.
struct Broken {
    asked: std::cell::Cell<u32>,
}

impl Light for Broken {
    fn shader_source(&self, i: u32) -> Result<String, LightingError> {
        self.asked.set(self.asked.get() + 1);
        Err(LightingError::ShaderSource { slot: i })
    }

    fn use_uniforms(&self, _program: &mut Program, i: u32) -> Result<(), LightingError> {
        Err(LightingError::Binding { slot: i })
    }

    fn id(&self) -> LightId {
        LightId(2)
    }
}

fn glow_fragment(i: u32) -> String {
    Glow { level: 0 }.shader_source(i).unwrap()
}

#[test]
fn empty_list_gives_preamble_and_unlit_dispatch() {
    let lights: [&dyn Light; 0] = [];
    let source = lights_shader_source(&lights).unwrap();
    let expected = format!("{}{}{}{}", SHARED_SOURCE, LIGHT_SHARED_SOURCE, HEAD, TAIL);
    assert_eq!(source, expected);
    assert!(!source.contains("color +="));
    assert!(source.contains("vec3 color = vec3(0.0, 0.0, 0.0);"));
    assert!(source.ends_with("return color;\n            }\n            "));
}

#[test]
fn dispatch_function_of_no_lights_is_head_and_tail() {
    assert_eq!(dispatch_function_source(0), format!("{}{}", HEAD, TAIL));
}

#[test]
fn dispatch_function_text_is_exact_for_two_lights() {
    let expected = "\n            vec3 calculate_lighting(vec3 camera_position, vec3 surface_color, vec3 position, vec3 normal, float metallic, float roughness, float occlusion)\n            {\n                vec3 color = vec3(0.0, 0.0, 0.0);\n                vec3 view_direction = normalize(camera_position - position);\n                color += calculate_lighting0(surface_color, position, normal, view_direction, metallic, roughness, occlusion);\ncolor += calculate_lighting1(surface_color, position, normal, view_direction, metallic, roughness, occlusion);\n\n                return color;\n            }\n            ";
    assert_eq!(dispatch_function_source(2), expected);
}

#[test]
fn dispatch_function_has_one_statement_per_light_in_order() {
    for n in [1usize, 3, 10, 11, 25] {
        let source = dispatch_function_source(n);
        assert_eq!(source.matches("color += calculate_lighting").count(), n);
        let mut expected = String::from(HEAD);
        for i in 0..n {
            expected.push_str(&statement(i));
        }
        expected.push_str(TAIL);
        assert_eq!(source, expected);
        let mut from = 0;
        for i in 0..n {
            let at = source[from..].find(&statement(i)).unwrap();
            from += at + 1;
        }
    }
}

#[test]
fn slot_numbers_are_written_in_decimal() {
    let source = dispatch_function_source(101);
    assert!(source.contains("color += calculate_lighting9(surface_color"));
    assert!(source.contains("color += calculate_lighting10(surface_color"));
    assert!(source.contains("color += calculate_lighting99(surface_color"));
    assert!(source.contains("color += calculate_lighting100(surface_color"));
    assert!(!source.contains("calculate_lighting101("));
    assert!(!source.contains("calculate_lighting00("));
}

#[test]
fn lights_are_composed_in_list_order() {
    let a = Glow { level: 1 };
    let b = Glow { level: 2 };
    let c = Glow { level: 3 };
    let lights: [&dyn Light; 3] = [&a, &b, &c];
    let source = lights_shader_source(&lights).unwrap();
    let expected = format!(
        "{}{}{}{}{}{}{}{}{}{}",
        SHARED_SOURCE,
        LIGHT_SHARED_SOURCE,
        glow_fragment(0),
        glow_fragment(1),
        glow_fragment(2),
        HEAD,
        statement(0),
        statement(1),
        statement(2),
        TAIL
    );
    assert_eq!(source, expected);
}

#[test]
fn each_light_is_asked_for_the_slot_of_its_position() {
    let lights = vec![Glow { level: 5 }, Glow { level: 5 }];
    let source = lights_shader_source(&lights).unwrap();
    assert_eq!(source.matches("vec3 calculate_lighting0(").count(), 1);
    assert_eq!(source.matches("vec3 calculate_lighting1(").count(), 1);
    assert_eq!(source.matches("vec3 calculate_lighting2(").count(), 0);
    let first = source.find("uniform vec3 glow0;").unwrap();
    let second = source.find("uniform vec3 glow1;").unwrap();
    assert!(first < second);
}

#[test]
fn composing_twice_gives_the_same_bytes() {
    let a = Glow { level: 1 };
    let b = Glow { level: 2 };
    let lights: [&dyn Light; 2] = [&a, &b];
    let first = lights_shader_source(&lights).unwrap();
    let second = lights_shader_source(&lights).unwrap();
    assert_eq!(first.as_bytes(), second.as_bytes());
}

#[test]
fn composition_from_lights_equals_composition_from_their_fragments() {
    let lights = vec![Glow { level: 1 }, Glow { level: 2 }];
    let fragments = vec![glow_fragment(0), glow_fragment(1)];
    assert_eq!(
        lights_shader_source(&lights).unwrap(),
        compose_shader_source(&fragments)
    );
}

#[test]
fn compose_shader_source_joins_fragments_behind_the_preamble() {
    let fragments = vec![String::from("A\n"), String::from("B\n")];
    let expected = format!(
        "{}{}A\nB\n{}{}{}{}",
        SHARED_SOURCE,
        LIGHT_SHARED_SOURCE,
        HEAD,
        statement(0),
        statement(1),
        TAIL
    );
    assert_eq!(compose_shader_source(&fragments), expected);
    assert_ne!(compose_shader_source(&fragments), compose_shader_source(&[]));
}

#[test]
fn failure_of_a_light_is_handed_on_and_nothing_is_composed() {
    let a = Glow { level: 1 };
    let b = Broken { asked: std::cell::Cell::new(0) };
    let c = Glow { level: 3 };
    let lights: [&dyn Light; 3] = [&a, &b, &c];
    assert_eq!(
        lights_shader_source(&lights),
        Err(LightingError::ShaderSource { slot: 1 })
    );
    assert_eq!(b.asked.get(), 1);
}

#[test]
fn the_first_failure_wins() {
    let a = Broken { asked: std::cell::Cell::new(0) };
    let b = Broken { asked: std::cell::Cell::new(0) };
    let lights: [&dyn Light; 2] = [&a, &b];
    assert_eq!(
        lights_shader_source(&lights),
        Err(LightingError::ShaderSource { slot: 0 })
    );
    assert_eq!(a.asked.get(), 1);
    assert_eq!(b.asked.get(), 0);
}

#[test]
fn shared_texts_hold_the_attenuation_formula() {
    assert!(LIGHT_SHARED_SOURCE.contains(
        "1.0 / max(1.0, attenuation.x + distance * attenuation.y + distance * distance * attenuation.z)"
    ));
    assert!(!SHARED_SOURCE.is_empty());
}
