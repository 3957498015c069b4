use rtengine::raytracing::RTSphere;
use rtengine::scalar::Scalar;
use rtengine::util::byte_size_of_array;
use rtengine::util::create_billboard;
use rtengine::util::create_triangle_triangle;
use rtengine::util::size_of;

fn reference_grid(width: i32, height: i32) -> (Vec<(i32, i32)>, Vec<u32>) {
    let mut points: Vec<(i32, i32)> = Vec::new();
    let mut indices: Vec<u32> = Vec::new();
    let mut i: u32 = 0;
    for y in 0..height {
        for x in y..width {
            points.push((x, y));
            i += 1;
            if x >= width - 1 {
                continue;
            }
            indices.push(i - 1);
            indices.push(i);
            indices.push(i + (width - y) as u32 - 1);
        }
    }
    (points, indices)
}

#[test]
fn array_size_is_length_times_element_size() {
    let words: [u32; 5] = [1, 2, 3, 4, 5];
    assert_eq!(byte_size_of_array(&words), 20);
    let bytes: Vec<u8> = vec![0; 7];
    assert_eq!(byte_size_of_array(&bytes), 7);
    let wide: Vec<u64> = vec![0; 3];
    assert_eq!(byte_size_of_array(&wide), 24);
    let none: Vec<u64> = Vec::new();
    assert_eq!(byte_size_of_array(&none), 0);
    let units: Vec<()> = vec![(); 9];
    assert_eq!(byte_size_of_array(&units), 0);
    let spheres = vec![RTSphere::new(), RTSphere::new()];
    assert_eq!(byte_size_of_array(&spheres), 2 * std::mem::size_of::<RTSphere>() as isize);
}

#[test]
fn type_size_is_that_of_the_host() {
    assert_eq!(size_of::<u8>(), 1);
    assert_eq!(size_of::<u32>(), 4);
    assert_eq!(size_of::<u64>(), 8);
    assert_eq!(size_of::<()>(), 0);
    assert_eq!(size_of::<[u32; 3]>(), 12);
    assert_eq!(size_of::<Scalar>(), 4);
}

#[test]
fn billboard_covers_the_screen_with_two_triangles() {
    let (vertices, indices) = create_billboard();
    let numbers: Vec<f32> = vertices.iter().map(|v| f32::from_bits(v.to_bits())).collect();
    assert_eq!(
        numbers,
        vec![1.0, 1.0, 0.0, -1.0, 1.0, 0.0, -1.0, -1.0, 0.0, 1.0, -1.0, 0.0]
    );
    assert_eq!(indices, vec![0, 1, 3, 1, 2, 3]);
}

#[test]
fn triangle_of_three_by_two() {
    let (points, indices) = create_triangle_triangle(3, 2);
    assert_eq!(points, vec![(0, 0), (1, 0), (2, 0), (1, 1), (2, 1)]);
    assert_eq!(indices, vec![0, 1, 3, 1, 2, 4, 3, 4, 5]);
}

#[test]
fn triangle_grid_agrees_with_the_plain_loops() {
    for width in -2..9 {
        for height in -2..9 {
            assert_eq!(
                create_triangle_triangle(width, height),
                reference_grid(width, height),
                "{} by {}",
                width,
                height
            );
        }
    }
}

#[test]
fn degenerate_triangles_are_empty() {
    assert_eq!(create_triangle_triangle(0, 0), (Vec::new(), Vec::new()));
    assert_eq!(create_triangle_triangle(5, 0), (Vec::new(), Vec::new()));
    assert_eq!(create_triangle_triangle(0, 5), (Vec::new(), Vec::new()));
    assert_eq!(create_triangle_triangle(-3, 4), (Vec::new(), Vec::new()));
    assert_eq!(create_triangle_triangle(4, -3), (Vec::new(), Vec::new()));
    assert_eq!(create_triangle_triangle(i32::MIN, i32::MIN), (Vec::new(), Vec::new()));
    assert_eq!(create_triangle_triangle(1, 1), (vec![(0, 0)], Vec::new()));
    assert_eq!(create_triangle_triangle(1, i32::MAX), (vec![(0, 0)], Vec::new()));
}
