use runarium::configs::config::RouteScale;
use runarium::types::drawer_data::{CanvasSpec, PositionRect, SizeRect};
use runarium::types::error::InputError;
use runarium::utils::canvas::{fit_canvas, panel_anchor};
use runarium::utils::converter::get_bounds;
use runarium::utils::projector::{project_route, project_track, to_px};

fn sample_track(count: usize) -> Vec<(i32, i32)> {
    let mut points: Vec<(i32, i32)> = Vec::new();
    let mut i: usize = 0;
    while i < count {
        let lat: i32 = 137_000_000 + ((i * 7919) % 1000) as i32 * 113;
        let lon: i32 = 1_005_000_000 + ((i * i) % 977) as i32 * 211;
        points.push((lat, lon));
        i += 1;
    }
    points
}

#[test]
fn bounds_enclose_every_sample() {
    let points = sample_track(500);
    let ((lat_min, lat_max), (lon_min, lon_max)) = get_bounds(&points).unwrap();
    for &(lat, lon) in points.iter() {
        assert!(lat_min <= lat && lat <= lat_max);
        assert!(lon_min <= lon && lon <= lon_max);
    }
    assert!(points.iter().any(|p| p.0 == lat_min));
    assert!(points.iter().any(|p| p.0 == lat_max));
    assert!(points.iter().any(|p| p.1 == lon_min));
    assert!(points.iter().any(|p| p.1 == lon_max));
}

#[test]
fn projection_follows_the_formula() {
    let scale = RouteScale::default();
    let bounds = ((0, 200), (0, 100));
    // (offset + normalized * scale) * width, north up
    assert_eq!(to_px(0, 0, bounds, &scale, 1000), PositionRect { x: 100, y: 300 });
    assert_eq!(to_px(100, 50, bounds, &scale, 1000), PositionRect { x: 200, y: 200 });
    assert_eq!(to_px(200, 100, bounds, &scale, 1000), PositionRect { x: 300, y: 100 });
}

#[test]
fn projection_rounds_towards_zero() {
    let scale = RouteScale::default();
    // a third of the way along: 100 + 200/3 = 166.67
    assert_eq!(to_px(0, 1, ((0, 0), (0, 3)), &scale, 1000).x, 166);
    // negative offsets round towards zero as well: -0.5 + 0 -> -0
    let left = RouteScale::new(200_000, -1, -1);
    assert_eq!(to_px(3, 0, ((0, 3), (0, 3)), &left, 1000), PositionRect { x: 0, y: 0 });
    let further = RouteScale::new(200_000, -1_500, -2_500);
    assert_eq!(to_px(3, 0, ((0, 3), (0, 3)), &further, 1000), PositionRect { x: -1, y: -2 });
}

#[test]
fn both_axes_scale_by_the_width() {
    let scale = RouteScale::new(500_000, 0, 0);
    let bounds = ((0, 10), (0, 10));
    // the lowest latitude lies at scale * width, whatever the height
    assert_eq!(to_px(0, 10, bounds, &scale, 1080), PositionRect { x: 540, y: 540 });
}

#[test]
fn flat_axis_lies_on_the_midline() {
    let scale = RouteScale::default();
    let points = vec![(7, 10), (7, 20), (7, 30)];
    let bounds = get_bounds(&points).unwrap();
    let pixels = project_track(&points, bounds, &scale, 1000);
    // (0.1 + 0.5 * 0.2) * 1000
    assert_eq!(pixels[0].y, 200);
    assert_eq!(pixels[1].y, 200);
    assert_eq!(pixels[2].y, 200);
    assert_eq!(pixels[0].x, 100);
    assert_eq!(pixels[1].x, 200);
    assert_eq!(pixels[2].x, 300);

    let single = vec![(5, 5)];
    let pixels = project_track(&single, get_bounds(&single).unwrap(), &scale, 1000);
    assert_eq!(pixels, vec![PositionRect { x: 200, y: 200 }]);
}

#[test]
fn projection_keeps_length_and_order() {
    let scale = RouteScale::centered();
    let points = sample_track(137);
    let bounds = get_bounds(&points).unwrap();
    let pixels = project_track(&points, bounds, &scale, 1080);
    assert_eq!(pixels.len(), points.len());
    for (i, &(lat, lon)) in points.iter().enumerate() {
        assert_eq!(pixels[i], to_px(lat, lon, bounds, &scale, 1080));
    }
}

#[test]
fn track_stays_in_its_band() {
    // a 1920x1080 source scaled to a longer side of 1080
    let image = SizeRect { width: 1920, height: 1080 };
    let points = sample_track(500);
    let scale = RouteScale::new(200_000, 100_000, 100_000);
    let (canvas, pixels) = project_route(&points, image, &scale, 1080).unwrap();
    assert_eq!(canvas, CanvasSpec { width: 1080, height: 607 });
    assert_eq!(pixels.len(), 500);
    // both axes between 0.1 * 1080 and 0.3 * 1080
    for p in pixels.iter() {
        assert!(108 <= p.x && p.x <= 324);
        assert!(108 <= p.y && p.y <= 324);
    }
    assert!(pixels.iter().any(|p| p.x == 108));
    assert!(pixels.iter().any(|p| p.x == 324));
    assert!(pixels.iter().any(|p| p.y == 108));
    assert!(pixels.iter().any(|p| p.y == 324));
}

#[test]
fn projection_saturates() {
    let scale = RouteScale::new(i32::MAX, i32::MAX, i32::MIN);
    let p = to_px(0, 10, ((0, 10), (0, 10)), &scale, i32::MAX);
    assert_eq!(p.x, i32::MAX);
    let q = to_px(10, 0, ((0, 10), (0, 10)), &scale, i32::MAX);
    assert_eq!(q.y, i32::MIN);
}

#[test]
fn empty_track_has_no_bounds() {
    let points: Vec<(i32, i32)> = Vec::new();
    assert_eq!(get_bounds(&points), Err(InputError::EmptyTrack));
}

#[test]
fn neighbouring_positions_stay_apart() {
    // samples one semicircle apart are not flat
    let points = vec![(0, 6), (1, 7)];
    assert_eq!(get_bounds(&points), Ok(((0, 1), (6, 7))));
    let scale = RouteScale::default();
    let pixels = project_track(&points, ((0, 1), (6, 7)), &scale, 1000);
    assert_eq!(pixels, vec![PositionRect { x: 100, y: 300 }, PositionRect { x: 300, y: 100 }]);
}

#[test]
fn empty_track_is_refused() {
    let points: Vec<(i32, i32)> = Vec::new();
    let image = SizeRect { width: 1920, height: 1080 };
    let scale = RouteScale::default();
    assert_eq!(project_route(&points, image, &scale, 1080), Err(InputError::EmptyTrack));
    // the track is looked at before the image
    let no_image = SizeRect { width: 0, height: 0 };
    assert_eq!(project_route(&points, no_image, &scale, 1080), Err(InputError::EmptyTrack));
}

#[test]
fn empty_image_is_refused() {
    let points = vec![(1, 2)];
    let scale = RouteScale::default();
    let flat = SizeRect { width: 100, height: 0 };
    assert_eq!(project_route(&points, flat, &scale, 1080), Err(InputError::EmptyImage));
    assert_eq!(fit_canvas(flat, 1080), Err(InputError::EmptyImage));
    assert_eq!(fit_canvas(SizeRect { width: -3, height: 5 }, 1080), Err(InputError::EmptyImage));
}

#[test]
fn canvas_is_fitted_to_the_longer_side() {
    assert_eq!(
        fit_canvas(SizeRect { width: 1920, height: 1080 }, 1080),
        Ok(CanvasSpec { width: 1080, height: 607 })
    );
    assert_eq!(
        fit_canvas(SizeRect { width: 3000, height: 4000 }, 1080),
        Ok(CanvasSpec { width: 810, height: 1080 })
    );
    // a small image keeps its extent
    assert_eq!(
        fit_canvas(SizeRect { width: 640, height: 480 }, 1080),
        Ok(CanvasSpec { width: 640, height: 480 })
    );
    assert_eq!(
        fit_canvas(SizeRect { width: 1080, height: 1080 }, 1080),
        Ok(CanvasSpec { width: 1080, height: 1080 })
    );
}

#[test]
fn anchor_is_a_fraction_of_the_canvas() {
    let canvas = CanvasSpec { width: 1080, height: 607 };
    // 0.5 * 1080 and 0.09 * 607 = 54.63
    assert_eq!(panel_anchor((500_000, 90_000), canvas), PositionRect { x: 540, y: 54 });
    assert_eq!(panel_anchor((0, 1_000_000), canvas), PositionRect { x: 0, y: 607 });
    assert_eq!(panel_anchor((-500_000, -90_000), canvas), PositionRect { x: -540, y: -54 });
}
