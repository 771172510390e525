use lighting::lights_shader_source;
use lighting::Light;
use lighting::LightId;
use lighting::LightingError;
use lighting::Program;
use std::rc::Rc;
use std::sync::Arc;

/// A light that shines from one direction.
struct Beam {
    color: [u32; 3],
    shadow: bool,
}

impl Light for Beam {
    fn shader_source(&self, i: u32) -> Result<String, LightingError> {
        if self.shadow {
            Ok(format!("uniform sampler2D shadowMap{};\nvec3 calculate_lighting{}() {{ }}\n", i, i))
        } else {
            Ok(format!("vec3 calculate_lighting{}() {{ }}\n", i))
        }
    }

    fn use_uniforms(&self, program: &mut Program, i: u32) -> Result<(), LightingError> {
        program.use_uniform(&format!("color{}", i), self.color.to_vec());
        if self.shadow {
            return Err(LightingError::Binding { slot: i });
        }
        Ok(())
    }

    fn id(&self) -> LightId {
        if self.shadow {
            LightId(0x11)
        } else {
            LightId(0x10)
        }
    }
}

fn bound<L: Light>(light: &L, slot: u32) -> (Result<(), LightingError>, Vec<(String, Vec<u32>)>) {
    let mut program = Program::new(vec![LightId(0); 8]);
    let outcome = light.use_uniforms(&mut program, slot);
    let writes = program
        .take_uniforms()
        .into_iter()
        .map(|u| (u.name, u.data))
        .collect();
    (outcome, writes)
}

fn same_as_bare<L: Light>(wrapped: &L, bare: &Beam) {
    for slot in [0u32, 1, 7, 4000000000] {
        assert_eq!(wrapped.shader_source(slot), bare.shader_source(slot));
        assert_eq!(bound(wrapped, slot), bound(bare, slot));
    }
    assert_eq!(wrapped.id(), bare.id());
}

fn plain() -> Beam {
    Beam { color: [1, 2, 3], shadow: false }
}

fn shadowed() -> Beam {
    Beam { color: [4, 5, 6], shadow: true }
}

#[test]
fn shared_reference_forwards() {
    let bare = plain();
    same_as_bare(&&bare, &plain());
    let bare = shadowed();
    same_as_bare(&&bare, &shadowed());
}

#[test]
fn exclusive_reference_forwards() {
    let mut bare = plain();
    same_as_bare(&&mut bare, &plain());
    let mut bare = shadowed();
    same_as_bare(&&mut bare, &shadowed());
}

#[test]
fn box_forwards() {
    same_as_bare(&Box::new(plain()), &plain());
    same_as_bare(&Box::new(shadowed()), &shadowed());
}

#[test]
fn rc_forwards() {
    same_as_bare(&Rc::new(plain()), &plain());
    same_as_bare(&Rc::new(shadowed()), &shadowed());
}

#[test]
fn arc_forwards() {
    same_as_bare(&Arc::new(plain()), &plain());
    same_as_bare(&Arc::new(shadowed()), &shadowed());
}

#[test]
fn two_layers_forward() {
    same_as_bare(&Arc::new(Box::new(plain())), &plain());
    same_as_bare(&Rc::new(Arc::new(shadowed())), &shadowed());
    let bare = plain();
    same_as_bare(&Box::new(&bare), &plain());
}

#[test]
fn trait_object_forwards() {
    let bare = shadowed();
    let object: &dyn Light = &bare;
    same_as_bare(&object, &shadowed());
    let boxed: Box<&dyn Light> = Box::new(object);
    same_as_bare(&boxed, &shadowed());
}

#[test]
fn wrapped_lights_compose_like_bare_lights() {
    let a = plain();
    let b = shadowed();
    let bare: [&dyn Light; 2] = [&a, &b];
    let boxed = Box::new(plain());
    let shared = Arc::new(Rc::new(shadowed()));
    let wrapped: [&dyn Light; 2] = [&boxed, &shared];
    assert_eq!(lights_shader_source(&wrapped), lights_shader_source(&bare));
    assert!(lights_shader_source(&bare).is_ok());
}

#[test]
fn same_configuration_same_id_and_different_configuration_different_id() {
    assert_eq!(plain().id(), Beam { color: [9, 9, 9], shadow: false }.id());
    assert_ne!(plain().id(), shadowed().id());
    assert!(!plain().id().reserved());
}
