use qemu_launch::qemu::QemuConfig;
use qemu_launch::qemu::QemuDriveConfig;

fn config_with(drives: Vec<QemuDriveConfig>, additional_args: Vec<String>) -> QemuConfig {
    QemuConfig {
        qemu_path: "qemu-system-x86_64".to_string(),
        bios_path: "bios.fd".to_string(),
        vars_path: "vars.fd".to_string(),
        shell_path: "shell.iso".to_string(),
        output_path: "out.txt".to_string(),
        drives,
        additional_args,
    }
}

#[test]
fn default_config_fields() {
    let c = QemuConfig::default();
    assert_eq!(c.qemu_path, "qemu-system-x86_64");
    assert_eq!(c.bios_path, "OVMF.fd");
    assert_eq!(c.vars_path, "OVMF_VARS.fd");
    assert_eq!(c.shell_path, "UefiShell.iso");
    assert_eq!(c.output_path, "Output.txt");
    assert_eq!(c.drives.len(), 0);
    assert_eq!(c.additional_args.len(), 0);
}

#[test]
fn default_config_produces_eight_tokens() {
    let args = QemuConfig::default().args();
    assert_eq!(args.len(), 8);
    assert_eq!(
        args,
        vec![
            "-drive".to_string(),
            "if=pflash,format=raw,file=OVMF.fd,index=0".to_string(),
            "-drive".to_string(),
            "if=pflash,format=raw,file=OVMF_VARS.fd,index=1".to_string(),
            "-drive".to_string(),
            "format=raw,file=UefiShell.iso,index=2".to_string(),
            "-serial".to_string(),
            "file:Output.txt".to_string(),
        ]
    );
}

#[test]
fn one_drive_scenario() {
    let c = config_with(vec![QemuDriveConfig::new("disk.img", "disk", "raw")], vec![]);
    let args = c.args();
    assert_eq!(args.len(), 10);
    assert_eq!(args[5], "format=raw,file=shell.iso,index=2");
    assert_eq!(args[6], "-drive");
    assert_eq!(args[7], "file=disk.img,index=3,media=disk,format=raw");
    assert_eq!(args[8], "-serial");
    assert_eq!(args[9], "file:out.txt");
}

#[test]
fn token_count_formula() {
    let c = config_with(
        vec![
            QemuDriveConfig::new("a.img", "disk", "raw"),
            QemuDriveConfig::new("b.iso", "cdrom", "raw"),
        ],
        vec!["-nographic".to_string(), "-m".to_string(), "256M".to_string()],
    );
    let args = c.args();
    assert_eq!(args.len(), 8 + 2 * 2 + 3);
}

#[test]
fn drive_order_and_indices_follow_input() {
    let c = config_with(
        vec![
            QemuDriveConfig::new("b.img", "disk", "qcow2"),
            QemuDriveConfig::new("a.iso", "cdrom", "raw"),
        ],
        vec![],
    );
    let args = c.args();
    assert_eq!(args[6], "-drive");
    assert_eq!(args[7], "file=b.img,index=3,media=disk,format=qcow2");
    assert_eq!(args[8], "-drive");
    assert_eq!(args[9], "file=a.iso,index=4,media=cdrom,format=raw");
}

#[test]
fn extra_args_appended_verbatim_in_order() {
    let c = config_with(
        vec![],
        vec!["-nographic".to_string(), "-m".to_string(), "256M".to_string()],
    );
    let args = c.args();
    assert_eq!(args.len(), 11);
    assert_eq!(args[8], "-nographic");
    assert_eq!(args[9], "-m");
    assert_eq!(args[10], "256M");
}

#[test]
fn serialization_is_idempotent() {
    let c = config_with(
        vec![QemuDriveConfig::new("disk.img", "disk", "raw")],
        vec!["-nographic".to_string()],
    );
    assert_eq!(c.args(), c.args());
}

#[test]
fn multi_digit_drive_index() {
    let mut drives = Vec::new();
    let mut k: usize = 0;
    while k < 9 {
        drives.push(QemuDriveConfig::new("d.img", "disk", "raw"));
        k += 1;
    }
    let c = config_with(drives, vec![]);
    let args = c.args();
    // drive 7 is mounted at index 10: the counter crosses into two digits
    assert_eq!(args[21], "file=d.img,index=10,media=disk,format=raw");
    assert_eq!(args[23], "file=d.img,index=11,media=disk,format=raw");
}

#[test]
fn drive_config_new_copies_fields() {
    let d = QemuDriveConfig::new("disk.img", "cdrom", "qcow2");
    assert_eq!(d.file, "disk.img");
    assert_eq!(d.media, "cdrom");
    assert_eq!(d.format, "qcow2");
}
