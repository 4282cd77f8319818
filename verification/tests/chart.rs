use easy_graph::chart::{Chart, ChartError};
use easy_graph::series::{Rgb, Sample, Series};

fn xy(x: i64, y: i64) -> Sample {
    Sample { x, y }
}

fn one_series_chart() -> Chart {
    Chart::new(vec![Series::line("a", Rgb(0, 0, 255))])
}

#[test]
fn auto_range_scans_extremes() {
    // y values 1.0, 5.0, -2.0 in thousandths; no configured limits.
    let mut chart = one_series_chart();
    chart.push_time_series(0, &[1000]).unwrap();
    chart.push_time_series(1, &[5000]).unwrap();
    chart.push_time_series(2, &[-2000]).unwrap();
    assert_eq!(chart.calc_axis_range(false), (-2000, 5000));
    assert_eq!(chart.calc_axis_range(true), (0, 2));
}

#[test]
fn auto_range_respects_configured_minimum() {
    let mut chart = one_series_chart();
    chart.push_time_series(0, &[1000]).unwrap();
    chart.push_time_series(1, &[5000]).unwrap();
    chart.push_time_series(2, &[-2000]).unwrap();
    chart.limits.y_min = Some(0);
    assert_eq!(chart.calc_axis_range(false), (0, 5000));
}

#[test]
fn configured_limits_used_verbatim() {
    let mut chart = one_series_chart();
    chart.push_time_series(0, &[9000]).unwrap();
    chart.limits.y_min = Some(-1);
    chart.limits.y_max = Some(1);
    assert_eq!(chart.calc_axis_range(false), (-1, 1));
}

#[test]
fn empty_chart_range_falls_back_to_unit() {
    let chart = one_series_chart();
    assert_eq!(chart.calc_axis_ranges(), ((0, 1), (0, 1)));
}

#[test]
fn push_row_length_mismatch_changes_nothing() {
    let mut chart = Chart::new(vec![
        Series::line("a", Rgb(255, 0, 0)),
        Series::line("b", Rgb(0, 255, 0)),
    ]);
    chart.push_time_series(0, &[1, 2]).unwrap();
    let before: Vec<usize> = (0..chart.num_series()).map(|i| chart.data[i].len()).collect();
    let result = chart.push_time_series(1, &[1, 2, 3]);
    assert_eq!(result, Err(ChartError::LengthMismatch));
    let after: Vec<usize> = (0..chart.num_series()).map(|i| chart.data[i].len()).collect();
    assert_eq!(before, after);
}

#[test]
fn push_row_enforces_data_cap() {
    let mut chart = one_series_chart();
    chart.data_limit = Some(2);
    chart.push_time_series(0, &[10]).unwrap();
    chart.push_time_series(1, &[11]).unwrap();
    chart.push_time_series(2, &[12]).unwrap();
    assert_eq!(chart.data[0].len(), 2);
    assert_eq!(chart.data[0].sample_at(0), xy(1, 11));
    assert_eq!(chart.data[0].sample_at(1), xy(2, 12));
}

#[test]
fn push_xy_checks_index() {
    let mut chart = one_series_chart();
    assert_eq!(chart.push_xy(0, xy(1, 2)), Ok(()));
    assert_eq!(chart.push_xy(1, xy(1, 2)), Err(ChartError::IndexOutOfRange));
    assert_eq!(chart.data[0].len(), 1);
}

#[test]
fn replace_series_swaps_contents() {
    let mut chart = one_series_chart();
    chart.push_xy(0, xy(9, 9)).unwrap();
    chart.replace_series(0, &[xy(1, 2), xy(3, 4)]).unwrap();
    assert_eq!(chart.data[0].len(), 2);
    assert_eq!(chart.data[0].sample_at(0), xy(1, 2));
    assert_eq!(
        chart.replace_series(5, &[xy(0, 0)]),
        Err(ChartError::IndexOutOfRange)
    );
}

#[test]
fn log_axis_excludes_nonpositive_values() {
    assert!(easy_graph::chart::log_plottable(false, -5));
    assert!(easy_graph::chart::log_plottable(false, 0));
    assert!(easy_graph::chart::log_plottable(true, 1));
    assert!(!easy_graph::chart::log_plottable(true, 0));
    assert!(!easy_graph::chart::log_plottable(true, -2000));
}

#[test]
fn chart_defaults() {
    let chart = one_series_chart();
    assert_eq!(chart.num_series(), 1);
    assert_eq!(chart.title.as_str(), "Plot");
    assert_eq!(chart.x_label.as_str(), "X");
    assert_eq!(chart.y_label.as_str(), "Y");
    assert!(!chart.y_log);
    assert_eq!(chart.data_limit, None);
    assert_eq!(chart.limits.x_min, None);
    assert_eq!(chart.limits.y_max, None);
}
