use easy_graph::color::LinearColorMap;
use easy_graph::series::Rgb;

#[test]
fn color_map_keeps_stops_in_order() {
    let map = LinearColorMap::new(&[Rgb(0, 255, 0), Rgb(255, 255, 0), Rgb(255, 0, 0)]);
    assert_eq!(map.num_colors(), 3);
    assert_eq!(map.colors[0], (0, 255, 0));
    assert_eq!(map.colors[1], (255, 255, 0));
    assert_eq!(map.colors[2], (255, 0, 0));
}

#[test]
fn color_map_empty() {
    let map = LinearColorMap::new(&[]);
    assert_eq!(map.num_colors(), 0);
}
