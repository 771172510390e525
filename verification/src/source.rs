//! The fixed shader texts that every composed source is built from.

use vstd::prelude::*;

verus! {

/// Utilities that every shader of the renderer shares.
pub const SHARED_SOURCE: &'static str = "
#define PI 3.14159265359

float saturate(float value)
{
    return clamp(value, 0.0, 1.0);
}

vec3 rgb_from_srgb(vec3 srgb)
{
    vec3 low = srgb / 12.92;
    vec3 high = pow((srgb + 0.055) / 1.055, vec3(2.4, 2.4, 2.4));
    return mix(high, low, vec3(lessThanEqual(srgb, vec3(0.04045, 0.04045, 0.04045))));
}

vec3 srgb_from_rgb(vec3 rgb)
{
    vec3 low = rgb * 12.92;
    vec3 high = 1.055 * pow(rgb, vec3(1.0 / 2.4, 1.0 / 2.4, 1.0 / 2.4)) - 0.055;
    return mix(high, low, vec3(lessThanEqual(rgb, vec3(0.0031308, 0.0031308, 0.0031308))));
}
";

/// What the fragments of all lights build on: distance attenuation and the
/// reflectance of a surface under the lighting model whose id the material
/// defines as `LIGHTING_MODEL`.
pub const LIGHT_SHARED_SOURCE: &'static str = "
float attenuate(vec3 attenuation, float distance)
{
    return 1.0 / max(1.0, attenuation.x + distance * attenuation.y + distance * distance * attenuation.z);
}

float normal_distribution(float n_dot_h, float roughness)
{
    float a = roughness * roughness;
    float a2 = a * a;
#if LIGHTING_MODEL == 3
    float e = 2.0 / a2 - 2.0;
    return (e + 2.0) / (2.0 * PI) * pow(n_dot_h, e);
#elif LIGHTING_MODEL == 4
    float c2 = n_dot_h * n_dot_h;
    return exp((c2 - 1.0) / (a2 * c2)) / (PI * a2 * c2 * c2);
#else
    float d = n_dot_h * n_dot_h * (a2 - 1.0) + 1.0;
    return a2 / (PI * d * d);
#endif
}

float geometry_smith_schlick(float n_dot_v, float n_dot_l, float roughness)
{
    float k = (roughness + 1.0) * (roughness + 1.0) / 8.0;
    float g_v = n_dot_v / (n_dot_v * (1.0 - k) + k);
    float g_l = n_dot_l / (n_dot_l * (1.0 - k) + k);
    return g_v * g_l;
}

vec3 fresnel_schlick(vec3 f0, float cosine)
{
    return f0 + (1.0 - f0) * pow(1.0 - cosine, 5.0);
}

vec3 calculate_light(vec3 light_color, vec3 light_direction, vec3 surface_color, vec3 view_direction, vec3 normal, float metallic, float roughness)
{
    float n_dot_l = saturate(dot(normal, light_direction));
    float n_dot_v = saturate(dot(normal, view_direction));
    vec3 half_way = normalize(light_direction + view_direction);
    float n_dot_h = saturate(dot(normal, half_way));
    vec3 f0 = mix(vec3(0.04, 0.04, 0.04), surface_color, metallic);
    vec3 fresnel = fresnel_schlick(f0, saturate(dot(half_way, view_direction)));
    vec3 diffuse = (1.0 - fresnel) * (1.0 - metallic) * surface_color / PI;
#if LIGHTING_MODEL == 1
    float a = roughness * roughness;
    float shininess = 2.0 / (a * a) - 2.0;
    vec3 reflected = reflect(-light_direction, normal);
    vec3 specular = fresnel * pow(saturate(dot(reflected, view_direction)), shininess);
#elif LIGHTING_MODEL == 2
    float a = roughness * roughness;
    float shininess = 2.0 / (a * a) - 2.0;
    vec3 specular = fresnel * pow(n_dot_h, shininess);
#else
    float distribution = normal_distribution(n_dot_h, roughness);
    float geometry = geometry_smith_schlick(n_dot_v, n_dot_l, roughness);
    vec3 specular = fresnel * distribution * geometry / max(0.001, 4.0 * n_dot_v * n_dot_l);
#endif
    return (diffuse + specular) * light_color * n_dot_l;
}
";

/// The dispatch function up to the place of its accumulation statements.
pub const DISPATCH_HEAD: &'static str =
    "\n            vec3 calculate_lighting(vec3 camera_position, vec3 surface_color, vec3 position, vec3 normal, float metallic, float roughness, float occlusion)\n            {\n                vec3 color = vec3(0.0, 0.0, 0.0);\n                vec3 view_direction = normalize(camera_position - position);\n                ";

/// The dispatch function from behind its accumulation statements.
pub const DISPATCH_TAIL: &'static str = "\n                return color;\n            }\n            ";

/// An accumulation statement up to the slot number.
pub const STATEMENT_HEAD: &'static str = "color += calculate_lighting";

/// An accumulation statement from behind the slot number.
pub const STATEMENT_TAIL: &'static str =
    "(surface_color, position, normal, view_direction, metallic, roughness, occlusion);\n";

} // verus!
