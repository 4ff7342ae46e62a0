use syterkit_mctl::align_up_to;
use syterkit_mctl::bus::MemTopology;
use syterkit_mctl::channel::mctl_channel_init;
use syterkit_mctl::params::dram_parameters;
use syterkit_mctl::scan::auto_scan_dram_rank_width;
use syterkit_mctl::sim::SimBus;
use syterkit_mctl::channel::{dqs_gate_result, pir_training_word, training_error};
use syterkit_mctl::config::{Config, Mode};
use syterkit_mctl::info::DynamicInfo;
use syterkit_mctl::params::{DramError, DramType};

#[test]
fn align_rounds_to_next_multiple() {
    assert_eq!(align_up_to(0, 16384), 0);
    assert_eq!(align_up_to(1, 16384), 16384);
    assert_eq!(align_up_to(16384, 16384), 16384);
    assert_eq!(align_up_to(16385, 16384), 32768);
    assert_eq!(align_up_to(100_000, 16384), 114_688);
}

#[test]
fn pir_words_per_mode_and_type() {
    // DQS gating mode one trains after its own reset pass.
    assert_eq!(pir_training_word(1, DramType::Ddr3, false), 0x5a0);
    assert_eq!(pir_training_word(1, DramType::Lpddr3, false), 0x520);
    // A fresh boot initializes everything, with DRAM reset on DDR3.
    assert_eq!(pir_training_word(0, DramType::Ddr3, false), 0x1f2);
    assert_eq!(pir_training_word(0, DramType::Ddr2, false), 0x172);
    // A resume only recalibrates.
    assert_eq!(pir_training_word(0, DramType::Ddr3, true), 0x62);
    assert_eq!(pir_training_word(2, DramType::Ddr3, true), 0x62);
}

#[test]
fn training_error_needs_code_and_flag() {
    assert!(training_error(0x0010_0000));
    assert!(training_error(0x0430_0001));
    assert!(!training_error(0x0000_0001));
    // An error code without the ZQ flag is not the checked failure.
    assert!(!training_error(0x0040_0000));
}

#[test]
fn dqs_gate_patterns() {
    // Gate flag clear: both ranks trained, full width.
    assert_eq!(dqs_gate_result(0x1, 0, 0, 0xffff), Ok(0xfff0 | 0x1000));
    // Lane zero code 2, lanes agree: single rank, full width.
    assert_eq!(dqs_gate_result(1 << 22, 0x02000000, 0x02000000, 0x1000), Ok(0));
    // Lanes disagree: single rank, half width.
    assert_eq!(dqs_gate_result(1 << 22, 0x02000000, 0x00000000, 0x1000), Ok(1));
    // The zero pattern on both lanes: dual rank, half width.
    assert_eq!(dqs_gate_result(1 << 22, 0, 0, 0), Ok(0x1001));
    // Anything else is undecidable, the zero pattern on one lane alone
    // included.
    assert_eq!(
        dqs_gate_result(1 << 22, 0x01000000, 0, 0),
        Err(DramError::DqsGateDetect)
    );
    assert_eq!(
        dqs_gate_result(1 << 22, 0, 0x02000000, 0),
        Err(DramError::DqsGateDetect)
    );
}

#[test]
fn channel_init_reports_zq_calibration_error() {
    let topo = MemTopology { page_bits: 12, row_bits: 14, eight_banks: true };
    // Init done, error code present, ZQ error flag set.
    let mut hw = SimBus::new(topo, 0x1 | (1 << 20), 0, 0, 0);
    let para = dram_parameters {
        dram_clk: 792,
        dram_type: DramType::Ddr3,
        dram_zq: 0x007b_7bfb,
        dram_odt_en: 1,
        dram_para1: 0x10f2,
        dram_para2: 0,
        dram_mr0: 0x1c70,
        dram_mr1: 0x42,
        dram_mr2: 0,
        dram_mr3: 0,
        dram_tpr0: 0,
        dram_tpr1: 0,
        dram_tpr2: 0,
        dram_tpr3: 0,
        dram_tpr4: 0,
        dram_tpr5: 0,
        dram_tpr6: 0,
        dram_tpr7: 0,
        dram_tpr8: 0,
        dram_tpr9: 0,
        dram_tpr10: 0,
        dram_tpr11: 0,
        dram_tpr12: 0,
        dram_tpr13: 0,
    };
    assert_eq!(mctl_channel_init(&para, &mut hw), Err(DramError::ZqCalibration));
}

#[test]
fn undecidable_lane_pattern_fails_rank_scan() {
    let topo = MemTopology { page_bits: 12, row_bits: 14, eight_banks: true };
    // Gate flag set but lane zero reports code 1: no known pattern.
    let mut hw = SimBus::new(topo, 0x1 | (1 << 22), 0x01000000, 0, 0);
    let mut para = dram_parameters {
        dram_clk: 792,
        dram_type: DramType::Ddr3,
        dram_zq: 0x007b_7bfb,
        dram_odt_en: 1,
        dram_para1: 0,
        dram_para2: 0,
        dram_mr0: 0x1c70,
        dram_mr1: 0x42,
        dram_mr2: 0,
        dram_mr3: 0,
        dram_tpr0: 0,
        dram_tpr1: 0,
        dram_tpr2: 0,
        dram_tpr3: 0,
        dram_tpr4: 0,
        dram_tpr5: 0,
        dram_tpr6: 0,
        dram_tpr7: 0,
        dram_tpr8: 0,
        dram_tpr9: 0,
        dram_tpr10: 0,
        dram_tpr11: 0,
        dram_tpr12: 0,
        dram_tpr13: 0,
    };
    assert_eq!(
        auto_scan_dram_rank_width(&mut para, &mut hw),
        Err(DramError::DqsGateDetect)
    );
}

#[test]
fn dynamic_info_builders() {
    let d = DynamicInfo::new();
    assert_eq!(d.magic, 0x4942534f);
    assert_eq!(d.version, 2);
    assert_eq!(d.next_mode, 0);
    let d = d.with_boot_hart(1).with_next_stage(Mode::Supervisor, 0x4180_0000);
    assert_eq!(d.boot_hart, 1);
    assert_eq!(d.next_mode, 1);
    assert_eq!(d.next_addr, 0x4180_0000);
    let d = d.with_machine(0x4000_0000);
    assert_eq!(d.next_mode, 3);
    let d = d.with_user(0x4100_0000);
    assert_eq!(d.next_mode, 0);
    let d = d.with_supervisor(0x4200_0000);
    assert_eq!(d.next_mode, 1);
    assert_eq!(d.next_addr, 0x4200_0000);
}

#[test]
fn default_config_points_at_standard_firmware() {
    let c = Config::default();
    assert_eq!(c.firmware.as_deref(), Some("rustsbi.bin"));
    assert!(c.opaque.is_none());
    assert!(c.bootargs.is_none());
    assert!(c.next_stage.path.is_none());
    assert_eq!(c.next_stage.mode.code(), 1);
}
