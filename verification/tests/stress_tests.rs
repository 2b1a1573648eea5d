use multimeter_gui::clock::Span;
use multimeter_gui::views::tools::{
    format_duration, MonitorPlotState, TestKind, TestRunState, TestStatus, ToolsState,
};

fn secs(s: u64) -> Span {
    Span::from_secs_nanos(s, 0)
}

fn millis(ms: u64) -> Span {
    Span::from_millis(ms)
}

#[test]
fn span_arithmetic() {
    let a = Span::from_secs_nanos(3, 250_000_000);
    assert_eq!(a.as_secs(), 3);
    assert_eq!(a.subsec_nanos(), 250_000_000);
    let b = a.add(Span::from_millis(900));
    assert_eq!(b.as_secs(), 4);
    assert_eq!(b.subsec_nanos(), 150_000_000);
    assert_eq!(a.saturating_sub(b).as_secs(), 0);
    assert_eq!(a.saturating_sub(b).subsec_nanos(), 0);
    assert_eq!(b.saturating_sub(a).subsec_nanos(), 900_000_000);
    assert!(a.lt(&b));
    assert!(!b.lt(&a));
    let max = Span::from_secs_nanos(u64::MAX, 999_999_999);
    assert_eq!(max.as_secs(), u64::MAX);
    assert_eq!(max.as_nanos(), u64::MAX as u128 * 1_000_000_000 + 999_999_999);
    assert_eq!(a.as_nanos(), 3_250_000_000);
}

#[test]
fn format_duration_fields() {
    assert_eq!(format_duration(Span::zero()), "00:00:00");
    assert_eq!(format_duration(Span::from_secs_nanos(59, 999_999_999)), "00:00:59");
    assert_eq!(format_duration(secs(3661)), "01:01:01");
    assert_eq!(format_duration(secs(45_296)), "12:34:56");
    assert_eq!(format_duration(secs(360_000)), "100:00:00");
}

#[test]
fn test_run_counts_and_freezes() {
    let mut run = TestRunState::default();
    assert!(!run.is_running());
    assert_eq!(run.elapsed(secs(100)).as_secs(), 0);
    run.mark_started(secs(10));
    assert!(run.is_running());
    assert_eq!(run.status, Some(TestStatus::Running));
    assert_eq!(run.elapsed(secs(25)).as_secs(), 15);
    // before the start the elapsed time saturates at zero
    assert_eq!(run.elapsed(secs(5)).as_secs(), 0);
    run.mark_stopped(secs(40));
    assert!(!run.is_running());
    assert_eq!(run.status, Some(TestStatus::Stopped));
    assert_eq!(run.elapsed(secs(40)).as_secs(), 30);
    assert_eq!(run.elapsed(secs(4000)).as_secs(), 30);
    // while running, the time never goes back
    let mut again = TestRunState::new();
    again.mark_started(secs(7));
    let mut last = 0;
    for t in [7u64, 8, 8, 20, 21, 500] {
        let e = again.elapsed(secs(t)).as_secs();
        assert!(e >= last);
        last = e;
    }
    // starting again counts from zero
    run.mark_started(secs(50));
    assert_eq!(run.elapsed(secs(52)).as_secs(), 2);
}

#[test]
fn test_run_failure_text() {
    let mut run = TestRunState::new();
    run.mark_started(secs(1));
    run.mark_failed("Start failed", "program not found".to_string());
    assert_eq!(
        run.status,
        Some(TestStatus::Failed("Start failed: program not found".to_string()))
    );
    // a failure keeps the clock
    assert!(run.is_running());
    assert_eq!(run.elapsed(secs(3)).as_secs(), 2);
}

#[test]
fn monitor_plot_pause_and_resume() {
    let mut plot: MonitorPlotState<u32> = MonitorPlotState::new();
    plot.start(secs(10));
    assert!(plot.is_running());
    // a second start changes nothing
    plot.start(secs(20));
    assert_eq!(plot.elapsed(secs(30)).as_secs(), 20);
    plot.pause(secs(30));
    assert!(!plot.is_running());
    assert_eq!(plot.elapsed(secs(1000)).as_secs(), 20);
    // pausing again changes nothing
    plot.pause(secs(60));
    assert_eq!(plot.elapsed(secs(1000)).as_secs(), 20);
    plot.start(secs(100));
    assert_eq!(plot.elapsed(secs(105)).as_secs(), 25);
}

#[test]
fn monitor_plot_sampling_interval() {
    let mut plot: MonitorPlotState<u32> = MonitorPlotState::new();
    plot.sample(millis(0), Some(1));
    assert!(plot.samples.is_empty());
    plot.start(millis(0));
    plot.sample(millis(0), Some(1));
    assert_eq!(plot.samples, vec![1]);
    plot.sample(millis(499), Some(2));
    assert_eq!(plot.samples, vec![1]);
    plot.sample(millis(500), Some(3));
    assert_eq!(plot.samples, vec![1, 3]);
    // a due sample without a reading still counts as taken
    plot.sample(millis(1000), None);
    assert_eq!(plot.samples, vec![1, 3]);
    plot.sample(millis(1200), Some(4));
    assert_eq!(plot.samples, vec![1, 3]);
    plot.sample(millis(1500), Some(5));
    assert_eq!(plot.samples, vec![1, 3, 5]);
    plot.pause(millis(1600));
    plot.sample(millis(5000), Some(6));
    assert_eq!(plot.samples, vec![1, 3, 5]);
    // resuming forgets the last sample time
    plot.start(millis(5100));
    plot.sample(millis(5100), Some(7));
    assert_eq!(plot.samples, vec![1, 3, 5, 7]);
    plot.reset();
    assert!(plot.samples.is_empty());
    assert!(!plot.is_running());
    assert_eq!(plot.elapsed(millis(9000)).as_secs(), 0);
}

#[test]
fn tools_toggle_selection() {
    let mut tools: ToolsState<u32> = ToolsState::default();
    assert_eq!(tools.selected_stress_test, None);
    tools.toggle_stress_test(TestKind::Cpu);
    assert_eq!(tools.selected_stress_test, Some(TestKind::Cpu));
    tools.toggle_stress_test(TestKind::Gpu);
    assert_eq!(tools.selected_stress_test, Some(TestKind::Gpu));
    tools.toggle_stress_test(TestKind::Gpu);
    assert_eq!(tools.selected_stress_test, None);
}

#[test]
fn tools_record_start_and_stop() {
    let mut tools: ToolsState<u32> = ToolsState::new();
    assert_eq!(tools.stress_test_buttons(TestKind::Ram, true), (true, false));
    assert_eq!(tools.stress_test_buttons(TestKind::Ram, false), (false, false));
    tools.record_start(TestKind::Ram, secs(5), Ok(()), "Start failed");
    assert!(tools.test_state(TestKind::Ram).is_running());
    assert!(!tools.test_state(TestKind::Cpu).is_running());
    assert_eq!(tools.stress_test_buttons(TestKind::Ram, true), (false, true));
    tools.record_stop(TestKind::Ram, secs(65), Err("busy".to_string()), "Stop failed");
    let ram = tools.test_state(TestKind::Ram);
    assert!(!ram.is_running());
    assert_eq!(ram.elapsed(secs(1000)).as_secs(), 60);
    assert_eq!(ram.status, Some(TestStatus::Failed("Stop failed: busy".to_string())));

    tools.record_start(TestKind::CpuGpu, secs(1), Err("missing".to_string()), "Start failed");
    let both = tools.test_state(TestKind::CpuGpu);
    assert!(!both.is_running());
    assert_eq!(both.status, Some(TestStatus::Failed("Start failed: missing".to_string())));

    tools.record_start(TestKind::Gpu, secs(2), Ok(()), "Start failed");
    tools.record_stop(TestKind::Gpu, secs(12), Ok(()), "Stop failed");
    assert_eq!(tools.test_state(TestKind::Gpu).status, Some(TestStatus::Stopped));
    assert_eq!(tools.test_state(TestKind::Gpu).elapsed(secs(99)).as_secs(), 10);
}

#[test]
fn test_kind_label_keys() {
    assert_eq!(TestKind::Cpu.label_key(), "tools_cpu_test");
    assert_eq!(TestKind::Gpu.label_key(), "tools_gpu_test");
    assert_eq!(TestKind::Ram.label_key(), "tools_ram_test");
    assert_eq!(TestKind::CpuGpu.label_key(), "tools_cpu_gpu_test");
}
