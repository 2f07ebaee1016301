use engine2d::components::{Entity, MoveSpeed, Player, Renderable, Transform};
use engine2d::instance::{
    count_drawn, extract_instances, instance_bytes, instance_words, AttributeFormat, InstanceRaw,
    StepMode, INSTANCE_CAPACITY, INSTANCE_STRIDE, INSTANCE_WORDS, MODEL_LOCATION,
};
use engine2d::math::{Color, Mat4, Scalar, Vec2, Vec4};
use engine2d::scene::Scene;

fn bits(x: f32) -> Scalar {
    Scalar::from_bits(x.to_bits())
}

fn number(s: Scalar) -> f32 {
    f32::from_bits(s.bits)
}

fn column(c: [f32; 4]) -> Vec4 {
    Vec4 { x: bits(c[0]), y: bits(c[1]), z: bits(c[2]), w: bits(c[3]) }
}

fn column_numbers(c: Vec4) -> [f32; 4] {
    [number(c.x), number(c.y), number(c.z), number(c.w)]
}

fn matrix_numbers(m: Mat4) -> [[f32; 4]; 4] {
    [
        column_numbers(m.x_axis),
        column_numbers(m.y_axis),
        column_numbers(m.z_axis),
        column_numbers(m.w_axis),
    ]
}

/// The model matrix of a transform: translation, then rotation about z, then
/// scale, the translation outermost.
fn compose(t: Transform) -> Mat4 {
    let translation = glam::Mat4::from_translation(glam::Vec3::new(
        number(t.position.x),
        number(t.position.y),
        0.0,
    ));
    let rotation = glam::Mat4::from_rotation_z(number(t.rotation));
    let scale = glam::Mat4::from_scale(glam::Vec3::new(number(t.scale.x), number(t.scale.y), 1.0));
    let cols = (translation * rotation * scale).to_cols_array_2d();
    Mat4 {
        x_axis: column(cols[0]),
        y_axis: column(cols[1]),
        z_axis: column(cols[2]),
        w_axis: column(cols[3]),
    }
}

fn transform(px: f32, py: f32, sx: f32, sy: f32, rotation: f32) -> Transform {
    Transform {
        position: Vec2 { x: bits(px), y: bits(py) },
        scale: Vec2 { x: bits(sx), y: bits(sy) },
        rotation: bits(rotation),
    }
}

fn rgba(r: f32, g: f32, b: f32, a: f32) -> Color {
    Color { r: bits(r), g: bits(g), b: bits(b), a: bits(a) }
}

fn quad(px: f32, py: f32, color: Color) -> Entity {
    Entity {
        player: None,
        move_speed: None,
        transform: Some(transform(px, py, 1.0, 1.0, 0.0)),
        renderable: Some(Renderable { color }),
    }
}

fn scene_with(entities: &[Entity]) -> Scene {
    let mut scene = Scene::new();
    for entity in entities.iter() {
        scene.spawn(*entity);
    }
    scene
}

#[test]
fn one_instance_for_each_entity_with_transform_and_renderable() {
    let only_transform = Entity {
        player: None,
        move_speed: None,
        transform: Some(transform(1.0, 1.0, 1.0, 1.0, 0.0)),
        renderable: None,
    };
    let only_renderable = Entity {
        player: None,
        move_speed: None,
        transform: None,
        renderable: Some(Renderable { color: Color::red() }),
    };
    let player_quad = Entity {
        player: Some(Player),
        move_speed: Some(MoveSpeed(bits(1.0))),
        transform: Some(transform(0.0, 0.0, 0.2, 0.2, 0.0)),
        renderable: Some(Renderable { color: Color::green() }),
    };
    let scene = scene_with(&[
        quad(0.7, 0.7, Color::blue()),
        only_transform,
        Entity::empty(),
        player_quad,
        only_renderable,
        quad(-1.0, 0.0, Color::white()),
    ]);
    let instances = extract_instances(&scene, INSTANCE_CAPACITY, compose);
    assert_eq!(instances.len(), 3);
    assert_eq!(instances[0].color, Color::blue());
    assert_eq!(instances[1].color, Color::green());
    assert_eq!(instances[2].color, Color::white());
}

#[test]
fn other_components_do_not_change_what_is_drawn() {
    let plain = scene_with(&[quad(0.1, 0.2, Color::red()), quad(0.3, 0.4, Color::blue())]);
    let mut marked_entities = [quad(0.1, 0.2, Color::red()), quad(0.3, 0.4, Color::blue())];
    marked_entities[0].player = Some(Player);
    marked_entities[1].move_speed = Some(MoveSpeed(bits(3.0)));
    let marked = scene_with(&marked_entities);
    assert_eq!(
        extract_instances(&plain, INSTANCE_CAPACITY, compose),
        extract_instances(&marked, INSTANCE_CAPACITY, compose)
    );
}

#[test]
fn an_empty_scene_gives_an_empty_batch() {
    let scene = Scene::new();
    assert!(extract_instances(&scene, INSTANCE_CAPACITY, compose).is_empty());
}

#[test]
fn model_matrix_of_a_translation_only_transform() {
    let scene = scene_with(&[Entity {
        player: None,
        move_speed: None,
        transform: Some(transform(2.0, 3.0, 1.0, 1.0, 0.0)),
        renderable: Some(Renderable { color: Color::white() }),
    }]);
    let instances = extract_instances(&scene, INSTANCE_CAPACITY, compose);
    assert_eq!(instances.len(), 1);
    let m = matrix_numbers(instances[0].model);
    assert_eq!(m[3], [2.0, 3.0, 0.0, 1.0]);
    assert_eq!(m[0], [1.0, 0.0, 0.0, 0.0]);
    assert_eq!(m[1], [0.0, 1.0, 0.0, 0.0]);
    assert_eq!(m[2], [0.0, 0.0, 1.0, 0.0]);
}

#[test]
fn scale_applies_before_the_translation() {
    let scene = scene_with(&[Entity {
        player: None,
        move_speed: None,
        transform: Some(transform(0.7, -0.7, 0.2, 0.5, 0.0)),
        renderable: Some(Renderable { color: Color::white() }),
    }]);
    let m = matrix_numbers(extract_instances(&scene, INSTANCE_CAPACITY, compose)[0].model);
    assert_eq!(m[0], [0.2, 0.0, 0.0, 0.0]);
    assert_eq!(m[1], [0.0, 0.5, 0.0, 0.0]);
    assert_eq!(m[3], [0.7, -0.7, 0.0, 1.0]);
}

#[test]
fn rotation_turns_the_local_frame_and_leaves_the_translation() {
    let quarter = std::f32::consts::FRAC_PI_2;
    let scene = scene_with(&[Entity {
        player: None,
        move_speed: None,
        transform: Some(transform(5.0, 6.0, 2.0, 3.0, quarter)),
        renderable: Some(Renderable { color: Color::white() }),
    }]);
    let m = matrix_numbers(extract_instances(&scene, INSTANCE_CAPACITY, compose)[0].model);
    assert!((m[0][0] - 0.0).abs() < 1e-6 && (m[0][1] - 2.0).abs() < 1e-6);
    assert!((m[1][0] + 3.0).abs() < 1e-6 && (m[1][1] - 0.0).abs() < 1e-6);
    assert_eq!(m[3], [5.0, 6.0, 0.0, 1.0]);
}

#[test]
fn colour_is_copied_bit_for_bit() {
    let odd = Color {
        r: Scalar::from_bits(0x7FC0_0001),
        g: Scalar::from_bits(0x8000_0000),
        b: Scalar::from_bits(0x0000_0001),
        a: Scalar::from_bits(0x3F80_0000),
    };
    let scene = scene_with(&[quad(0.0, 0.0, odd)]);
    let instances = extract_instances(&scene, INSTANCE_CAPACITY, compose);
    assert_eq!(instances[0].color, odd);
}

#[test]
fn instances_come_in_the_order_of_the_entities() {
    let mut entities = Vec::new();
    for i in 0..10 {
        entities.push(quad(i as f32, 0.0, rgba(i as f32 / 10.0, 0.0, 0.0, 1.0)));
        entities.push(Entity::empty());
    }
    let scene = scene_with(&entities);
    let instances = extract_instances(&scene, INSTANCE_CAPACITY, compose);
    assert_eq!(instances.len(), 10);
    for (i, instance) in instances.iter().enumerate() {
        assert_eq!(number(instance.model.w_axis.x), i as f32);
        assert_eq!(number(instance.color.r), i as f32 / 10.0);
    }
}

#[test]
fn entities_beyond_the_capacity_are_left_out() {
    let mut scene = Scene::new();
    for i in 0..(INSTANCE_CAPACITY + 5) {
        scene.spawn(quad(i as f32, 0.0, Color::white()));
    }
    let instances = extract_instances(&scene, INSTANCE_CAPACITY, compose);
    assert_eq!(instances.len(), 1024);
    assert_eq!(number(instances[0].model.w_axis.x), 0.0);
    assert_eq!(number(instances[1023].model.w_axis.x), 1023.0);
}

#[test]
fn a_small_capacity_keeps_the_first_entities() {
    let scene = scene_with(&[
        quad(1.0, 0.0, Color::red()),
        Entity::empty(),
        quad(2.0, 0.0, Color::green()),
        quad(3.0, 0.0, Color::blue()),
    ]);
    let two = extract_instances(&scene, 2, compose);
    assert_eq!(two.len(), 2);
    assert_eq!(two[0].color, Color::red());
    assert_eq!(two[1].color, Color::green());
    assert!(extract_instances(&scene, 0, compose).is_empty());
    assert_eq!(extract_instances(&scene, 3, compose).len(), 3);
}

#[test]
fn extraction_leaves_the_scene_as_it_was() {
    let scene = scene_with(&[quad(0.7, 0.7, Color::blue())]);
    let before = scene.entities[0];
    let first = extract_instances(&scene, INSTANCE_CAPACITY, compose);
    let second = extract_instances(&scene, INSTANCE_CAPACITY, compose);
    assert_eq!(first, second);
    assert_eq!(scene.entities[0].transform, before.transform);
    assert_eq!(scene.entities[0].renderable, before.renderable);
    assert_eq!(scene.len(), 1);
}

fn sample_instance(seed: f32) -> InstanceRaw {
    InstanceRaw {
        model: Mat4 {
            x_axis: column([seed + 0.0, seed + 1.0, seed + 2.0, seed + 3.0]),
            y_axis: column([seed + 4.0, seed + 5.0, seed + 6.0, seed + 7.0]),
            z_axis: column([seed + 8.0, seed + 9.0, seed + 10.0, seed + 11.0]),
            w_axis: column([seed + 12.0, seed + 13.0, seed + 14.0, seed + 15.0]),
        },
        color: rgba(seed + 16.0, seed + 17.0, seed + 18.0, seed + 19.0),
    }
}

#[test]
fn words_are_the_columns_then_the_colour() {
    let batch = vec![sample_instance(0.0), sample_instance(100.0)];
    let words = instance_words(&batch);
    assert_eq!(words.len(), 2 * INSTANCE_WORDS);
    for (i, word) in words.iter().enumerate() {
        let expected = if i < 20 { i as f32 } else { 100.0 + (i - 20) as f32 };
        assert_eq!(f32::from_bits(*word), expected);
    }
    assert!(instance_words(&Vec::new()).is_empty());
}

#[test]
fn bytes_are_the_words_in_memory_order() {
    let batch = vec![sample_instance(0.5), sample_instance(-3.25), sample_instance(1e9)];
    let bytes = instance_bytes(&batch);
    assert_eq!(bytes.len() as u64, 3 * INSTANCE_STRIDE);
    let mut expected: Vec<u8> = Vec::new();
    for word in instance_words(&batch).iter() {
        expected.extend_from_slice(&f32::from_bits(*word).to_ne_bytes());
    }
    assert_eq!(bytes, expected);
    assert!(instance_bytes(&Vec::new()).is_empty());
}

#[test]
fn bytes_of_one_are_not_its_word() {
    let mut one = sample_instance(0.0);
    one.model.x_axis.x = bits(1.0);
    let bytes = instance_bytes(&vec![one]);
    assert_eq!(&bytes[0..4], &1.0f32.to_ne_bytes());
    assert_eq!(bytes.len(), 80);
}

#[test]
fn instance_layout_has_five_attributes_of_sixteen_bytes() {
    let layout = InstanceRaw::desc();
    assert_eq!(layout.array_stride, 80);
    assert_eq!(layout.array_stride, INSTANCE_STRIDE);
    assert_eq!(layout.step_mode, StepMode::Instance);
    assert_eq!(layout.attributes.len(), 5);
    assert_eq!(MODEL_LOCATION, 5);
    for (k, attribute) in layout.attributes.iter().enumerate() {
        assert_eq!(attribute.offset, 16 * k as u64);
        assert_eq!(attribute.shader_location, 5 + k as u32);
        assert_eq!(attribute.format, AttributeFormat::Four);
    }
}

#[test]
fn count_drawn_counts_the_entities_with_both_components() {
    let only_transform = Entity {
        player: Some(Player),
        move_speed: Some(MoveSpeed(bits(1.0))),
        transform: Some(transform(1.0, 1.0, 1.0, 1.0, 0.0)),
        renderable: None,
    };
    let scene = scene_with(&[
        quad(0.0, 0.0, Color::red()),
        only_transform,
        Entity::empty(),
        quad(1.0, 0.0, Color::blue()),
    ]);
    assert_eq!(count_drawn(&scene), 2);
    assert_eq!(count_drawn(&scene), extract_instances(&scene, INSTANCE_CAPACITY, compose).len());
    assert_eq!(count_drawn(&Scene::new()), 0);
}

#[test]
fn count_drawn_is_not_capped() {
    let mut scene = Scene::new();
    for i in 0..1030 {
        scene.spawn(quad(i as f32, 0.0, Color::white()));
    }
    assert_eq!(count_drawn(&scene), 1030);
    assert_eq!(extract_instances(&scene, INSTANCE_CAPACITY, compose).len(), 1024);
}
