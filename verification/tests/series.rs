use easy_graph::series::{Rgb, Sample, Series, SeriesType};

fn xy(x: i64, y: i64) -> Sample {
    Sample { x, y }
}

#[test]
fn series_push_then_cap_keeps_recent() {
    // Five pushes, then a cap of 3: the last three survive, in order.
    let mut s = Series::line("a", Rgb(1, 2, 3));
    for i in 0..5 {
        s.push(xy(i, 10 * i));
    }
    s.drop_front(3);
    assert_eq!(s.len(), 3);
    assert_eq!(s.sample_at(0), xy(2, 20));
    assert_eq!(s.sample_at(1), xy(3, 30));
    assert_eq!(s.sample_at(2), xy(4, 40));
}

#[test]
fn series_cap_above_length_is_noop() {
    let mut s = Series::point("a", Rgb(0, 0, 0));
    s.push(xy(1, 1));
    s.push(xy(2, 2));
    s.drop_front(2);
    assert_eq!(s.len(), 2);
    s.drop_front(10);
    assert_eq!(s.len(), 2);
    assert_eq!(s.sample_at(0), xy(1, 1));
}

#[test]
fn series_drop_back_keeps_oldest() {
    let mut s = Series::line("a", Rgb(0, 0, 0));
    for i in 0..5 {
        s.push(xy(i, i));
    }
    s.drop_back(2);
    assert_eq!(s.len(), 2);
    assert_eq!(s.sample_at(0), xy(0, 0));
    assert_eq!(s.sample_at(1), xy(1, 1));
}

#[test]
fn series_replace_then_clear_is_empty() {
    let mut s = Series::point("scatter", Rgb(9, 9, 9));
    s.push(xy(5, 5));
    s.replace_all(&[xy(1, 2), xy(3, 4)]);
    assert_eq!(s.len(), 2);
    assert_eq!(s.sample_at(1), xy(3, 4));
    s.clear();
    assert_eq!(s.len(), 0);
}

#[test]
fn series_style_survives_mutation() {
    let mut s = Series::line("voltage", Rgb(10, 20, 30));
    s.push(xy(1, 1));
    s.clear();
    assert_eq!(s.name.as_str(), "voltage");
    assert_eq!(s.color, Rgb(10, 20, 30));
    assert_eq!(s.series_type, SeriesType::Line);
}

#[test]
fn series_constructors() {
    let p = Series::point("p", Rgb(1, 1, 1));
    assert_eq!(p.series_type, SeriesType::Point);
    assert_eq!(p.len(), 0);
    let l = Series::line("l", Rgb(2, 2, 2));
    assert_eq!(l.series_type, SeriesType::Line);
    assert_eq!(l.len(), 0);
}
