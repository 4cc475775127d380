use rl_extract::frame::{Position, Scalar};
use rl_extract::replay::{extract_samples, ExtractError};
use rl_extract::role::Role;
use rl_extract::sample::Sample;

const OBJECTS: [&str; 6] = [
    "Archetypes.Ball.Ball_Default",
    "Archetypes.Car.Car_Default",
    "TAGame.RBActor_TA",
    "TAGame.RBActor_TA:ReplicatedRBState",
    "TAGame.Ball_TA",
    "TAGame.Car_TA",
];

fn push_bits(bits: &mut Vec<bool>, value: u64, count: u32) {
    for i in 0..count {
        bits.push((value >> i) & 1 == 1);
    }
}

fn pack(bits: &[bool]) -> Vec<u8> {
    let mut bytes = vec![0u8; (bits.len() + 7) / 8];
    for (i, bit) in bits.iter().enumerate() {
        if *bit {
            bytes[i / 8] |= 1 << (i % 8);
        }
    }
    bytes.extend([0u8; 32]);
    bytes
}

fn push_frame_start(bits: &mut Vec<bool>, time: f32, delta: f32) {
    push_bits(bits, u64::from(time.to_bits()), 32);
    push_bits(bits, u64::from(delta.to_bits()), 32);
}

fn push_actor_id(bits: &mut Vec<bool>, actor: u64) {
    assert!(actor < 511);
    bits.push(true);
    push_bits(bits, actor, 9);
    bits.push(false);
    bits.push(true);
}

fn push_small_vector(bits: &mut Vec<bool>) {
    push_bits(bits, 0, 4);
    bits.push(false);
    for _ in 0..3 {
        push_bits(bits, 2, 2);
    }
}

fn push_vector(bits: &mut Vec<bool>, x: i64, y: i64, z: i64) {
    push_bits(bits, 8, 4);
    for v in [x, y, z] {
        assert!((-512..512).contains(&v));
        push_bits(bits, (v + 512) as u64, 10);
    }
}

fn push_new_actor(bits: &mut Vec<bool>, actor: u64, object: i32) {
    push_actor_id(bits, actor);
    bits.push(true);
    bits.push(false);
    push_bits(bits, u64::from(object as u32), 32);
    push_small_vector(bits);
    push_bits(bits, 0, 3);
}

fn push_rigid_bodies(bits: &mut Vec<bool>, actor: u64, locations: &[(i64, i64, i64)]) {
    push_actor_id(bits, actor);
    bits.push(false);
    for (x, y, z) in locations {
        bits.push(true);
        bits.push(true);
        bits.push(true);
        push_vector(bits, *x, *y, *z);
        push_bits(bits, 0, 48);
    }
    bits.push(false);
}

fn push_text(out: &mut Vec<u8>, text: &str) {
    out.extend((text.len() as i32 + 1).to_le_bytes());
    out.extend(text.as_bytes());
    out.push(0);
}

fn replay_file(num_frames: Option<i32>, network: &[u8]) -> Vec<u8> {
    let mut header = Vec::new();
    header.extend(866i32.to_le_bytes());
    header.extend(0i32.to_le_bytes());
    push_text(&mut header, "TAGame.Replay_Soccar_TA");
    if let Some(n) = num_frames {
        push_text(&mut header, "NumFrames");
        push_text(&mut header, "IntProperty");
        header.extend(4u32.to_le_bytes());
        header.extend([0u8; 4]);
        header.extend(n.to_le_bytes());
    }
    push_text(&mut header, "None");

    let mut body = Vec::new();
    body.extend(0i32.to_le_bytes());
    body.extend(0i32.to_le_bytes());
    body.extend((network.len() as i32).to_le_bytes());
    body.extend(network);
    body.extend(0i32.to_le_bytes());
    body.extend(0i32.to_le_bytes());
    body.extend(0i32.to_le_bytes());
    body.extend((OBJECTS.len() as i32).to_le_bytes());
    for object in OBJECTS {
        push_text(&mut body, object);
    }
    body.extend(0i32.to_le_bytes());
    body.extend(0i32.to_le_bytes());
    body.extend(1i32.to_le_bytes());
    body.extend(2i32.to_le_bytes());
    body.extend(0i32.to_le_bytes());
    body.extend(1i32.to_le_bytes());
    body.extend(1i32.to_le_bytes());
    body.extend(3i32.to_le_bytes());
    body.extend(1i32.to_le_bytes());

    let mut file = Vec::new();
    file.extend((header.len() as i32).to_le_bytes());
    file.extend(0u32.to_le_bytes());
    file.extend(header);
    file.extend((body.len() as i32).to_le_bytes());
    file.extend(0u32.to_le_bytes());
    file.extend(body);
    file
}

fn sample(time: f32, role: Role, actor: u32, x: f32, y: f32, z: f32) -> Sample {
    Sample {
        time: Scalar::from_bits(time.to_bits()),
        role,
        actor,
        position: Position {
            x: Scalar::from_bits(x.to_bits()),
            y: Scalar::from_bits(y.to_bits()),
            z: Scalar::from_bits(z.to_bits()),
        },
    }
}

#[test]
fn file_without_frames_yields_nothing() {
    let file = replay_file(None, &[]);
    let samples = extract_samples(&file).unwrap();
    assert_eq!(samples, Vec::<Sample>::new());
    assert_eq!(samples.len(), 0);
}

#[test]
fn file_with_one_ball_update_yields_one_ball_sample() {
    let mut bits = Vec::new();
    push_frame_start(&mut bits, 0.0, 0.5);
    push_new_actor(&mut bits, 7, 0);
    push_rigid_bodies(&mut bits, 7, &[(100, 200, 300)]);
    bits.push(false);
    let file = replay_file(Some(1), &pack(&bits));
    let samples = extract_samples(&file).unwrap();
    assert_eq!(samples, vec![sample(0.0, Role::Ball, 7, 1.0, 2.0, 3.0)]);
}

#[test]
fn file_with_two_car_rigid_bodies_yields_two_car_samples() {
    let mut bits = Vec::new();
    push_frame_start(&mut bits, 1.0, 1.0);
    push_new_actor(&mut bits, 3, 1);
    push_new_actor(&mut bits, 4, 2);
    bits.push(false);
    push_frame_start(&mut bits, 1.5, 0.5);
    push_rigid_bodies(&mut bits, 4, &[(1, 1, 1)]);
    push_rigid_bodies(&mut bits, 3, &[(100, 200, 300), (-400, 25, 0)]);
    bits.push(false);
    let file = replay_file(Some(2), &pack(&bits));
    let samples = extract_samples(&file).unwrap();
    assert_eq!(
        samples,
        vec![
            sample(1.5, Role::Car, 3, 1.0, 2.0, 3.0),
            sample(1.5, Role::Car, 3, -4.0, 0.25, 0.0),
        ]
    );
}

#[test]
fn truncated_file_is_refused() {
    let mut bits = Vec::new();
    push_frame_start(&mut bits, 0.0, 0.5);
    push_new_actor(&mut bits, 7, 0);
    bits.push(false);
    let file = replay_file(Some(1), &pack(&bits));
    assert!(extract_samples(&file).is_ok());
    for cut in [0, 3, 8, 40, file.len() / 2, file.len() - 1] {
        assert!(matches!(extract_samples(&file[..cut]), Err(ExtractError::MalformedSource(_))));
    }
}

#[test]
fn broken_network_data_is_refused() {
    let mut bits = Vec::new();
    push_frame_start(&mut bits, 0.0, 0.5);
    push_rigid_bodies(&mut bits, 7, &[(100, 200, 300)]);
    bits.push(false);
    let file = replay_file(Some(1), &pack(&bits));
    match extract_samples(&file) {
        Err(ExtractError::MalformedSource(e)) => {
            assert!(matches!(e, boxcars::ParseError::NetworkError(_)));
        }
        _ => panic!("an update of an actor that the decoder never saw was accepted"),
    }
}
