//! Launch configuration for the emulator and its serialization into the
//! ordered command-line argument list.
//!
//! The emulator assigns meaning positionally: every drive-producing
//! argument pair carries an index from an incrementing counter, so the
//! order of the generated tokens is part of the interface.  The
//! serialization is specified token by token by [`spec_args`].

use vstd::prelude::*;

use crate::decimal::dec_rep;
use crate::decimal::dec_string;

verus! {

/// Mathematical model of a drive descriptor: the three strings that end
/// up verbatim in its argument token.
pub struct DriveModel {
    pub file: Seq<char>,
    pub media: Seq<char>,
    pub format: Seq<char>,
}

/// Mathematical model of a launch configuration.
pub struct ConfigModel {
    pub qemu_path: Seq<char>,
    pub bios_path: Seq<char>,
    pub vars_path: Seq<char>,
    pub shell_path: Seq<char>,
    pub output_path: Seq<char>,
    pub drives: Seq<DriveModel>,
    pub additional_args: Seq<Seq<char>>,
}

/// The flag token that introduces every drive specification.
pub open spec fn drive_flag() -> Seq<char> {
    "-drive"@
}

/// The flag token that introduces the serial redirection.
pub open spec fn serial_flag() -> Seq<char> {
    "-serial"@
}

/// The value token mounting a raw image as a flash (pflash) drive.
pub open spec fn pflash_arg_spec(path: Seq<char>, index: nat) -> Seq<char> {
    "if=pflash,format=raw,file="@ + path + ",index="@ + dec_rep(index)
}

/// The value token mounting the boot shell image as a generic raw drive.
pub open spec fn shell_arg_spec(path: Seq<char>, index: nat) -> Seq<char> {
    "format=raw,file="@ + path + ",index="@ + dec_rep(index)
}

/// The value token for a configured drive, carrying its own media and
/// format strings.
pub open spec fn drive_arg_spec(drive: DriveModel, index: nat) -> Seq<char> {
    "file="@ + drive.file + ",index="@ + dec_rep(index) + ",media="@ + drive.media + ",format="@
        + drive.format
}

/// The value token redirecting the guest's serial console to a file.
pub open spec fn serial_arg_spec(path: Seq<char>) -> Seq<char> {
    "file:"@ + path
}

/// The six fixed leading tokens: firmware, variable store and boot
/// shell, mounted at indices 0, 1 and 2.
pub open spec fn fixed_args(c: ConfigModel) -> Seq<Seq<char>> {
    seq![
        drive_flag(),
        pflash_arg_spec(c.bios_path, 0),
        drive_flag(),
        pflash_arg_spec(c.vars_path, 1),
        drive_flag(),
        shell_arg_spec(c.shell_path, 2),
    ]
}

/// The argument pairs for the configured drives, in sequence order,
/// drive `j` mounted at index `3 + j`.
pub open spec fn drives_args(drives: Seq<DriveModel>) -> Seq<Seq<char>>
    decreases drives.len(),
{
    if drives.len() == 0 {
        Seq::empty()
    } else {
        drives_args(drives.drop_last())
            + seq![drive_flag(), drive_arg_spec(drives.last(), (drives.len() + 2) as nat)]
    }
}

/// The drive pairs take two tokens per configured drive.
pub proof fn lemma_drives_args_len(drives: Seq<DriveModel>)
    ensures
        drives_args(drives).len() == 2 * drives.len(),
    decreases drives.len(),
{
    if drives.len() > 0 {
        lemma_drives_args_len(drives.drop_last());
    }
}

/// Serializing one more drive appends exactly its flag/value pair.
proof fn lemma_drives_args_step(drives: Seq<DriveModel>, i: int)
    requires
        0 < i <= drives.len(),
    ensures
        drives_args(drives.take(i)) == drives_args(drives.take(i - 1)) + seq![
            drive_flag(),
            drive_arg_spec(drives[i - 1], (i + 2) as nat),
        ],
{
    let taken = drives.take(i);
    assert(taken.drop_last() =~= drives.take(i - 1));
    assert(taken.len() == i);
    assert(taken.last() == drives[i - 1]);
}

/// The full argument list for a configuration: the three fixed drive
/// pairs, one pair per configured drive, the serial pair, then the
/// extra arguments verbatim.
pub open spec fn spec_args(c: ConfigModel) -> Seq<Seq<char>> {
    fixed_args(c) + drives_args(c.drives) + seq![serial_flag(), serial_arg_spec(c.output_path)]
        + c.additional_args
}

/// Within the drive pairs, pair `j` is the flag token followed by the
/// value token of drive `j`, mounted at index `3 + j`.
pub proof fn lemma_drives_args_index(drives: Seq<DriveModel>, j: int)
    requires
        0 <= j < drives.len(),
    ensures
        drives_args(drives)[2 * j] == drive_flag(),
        drives_args(drives)[2 * j + 1] == drive_arg_spec(drives[j], (j + 3) as nat),
    decreases drives.len(),
{
    lemma_drives_args_len(drives.drop_last());
    if j < drives.len() - 1 {
        lemma_drives_args_index(drives.drop_last(), j);
        assert(drives.drop_last()[j] == drives[j]);
    }
}

/// Law: the argument list splits into the three fixed pairs, the
/// configured drive pairs in input order, the serial pair, and the
/// extra arguments verbatim; its length is
/// `8 + 2 * drives + extra arguments`.
pub proof fn lemma_args_shape(c: ConfigModel)
    ensures
        spec_args(c).len() == 8 + 2 * c.drives.len() + c.additional_args.len(),
        spec_args(c).subrange(0, 6) == fixed_args(c),
        spec_args(c).subrange(6, 6 + 2 * (c.drives.len() as int)) == drives_args(c.drives),
        spec_args(c)[6 + 2 * (c.drives.len() as int)] == serial_flag(),
        spec_args(c)[7 + 2 * (c.drives.len() as int)] == serial_arg_spec(c.output_path),
        spec_args(c).subrange(8 + 2 * (c.drives.len() as int), spec_args(c).len() as int)
            == c.additional_args,
{
    lemma_drives_args_len(c.drives);
    assert(spec_args(c).subrange(0, 6) =~= fixed_args(c));
    assert(spec_args(c).subrange(6, 6 + 2 * (c.drives.len() as int)) =~= drives_args(c.drives));
    assert(spec_args(c).subrange(8 + 2 * (c.drives.len() as int), spec_args(c).len() as int)
        =~= c.additional_args);
}

/// Law: the drive index counter starts at 0 and increases by one per
/// drive-producing pair, with no gaps and no repeats: the value token
/// of pair `i` carries exactly index `i`, and for `i >= 3` it is the
/// token of configured drive `i - 3`, so configured drives keep their
/// input order.
pub proof fn lemma_drive_indices(c: ConfigModel, i: int)
    requires
        0 <= i < 3 + c.drives.len(),
    ensures
        spec_args(c)[2 * i] == drive_flag(),
        spec_args(c)[2 * i + 1] == (if i == 0 {
            pflash_arg_spec(c.bios_path, i as nat)
        } else if i == 1 {
            pflash_arg_spec(c.vars_path, i as nat)
        } else if i == 2 {
            shell_arg_spec(c.shell_path, i as nat)
        } else {
            drive_arg_spec(c.drives[i - 3], i as nat)
        }),
{
    lemma_drives_args_len(c.drives);
    if i >= 3 {
        lemma_drives_args_index(c.drives, i - 3);
    }
}

/// Law: serialization is deterministic — two argument lists obtained
/// from the same configuration value are identical.
pub proof fn lemma_args_idempotent(c: ConfigModel, first: Seq<Seq<char>>, second: Seq<Seq<char>>)
    requires
        first == spec_args(c),
        second == spec_args(c),
    ensures
        first == second,
{
}

/// The views of a sequence of strings.
pub open spec fn string_views(v: Seq<String>) -> Seq<Seq<char>> {
    v.map_values(|s: String| s@)
}

/// Pushing a string onto a vector appends its view to the views.
proof fn lemma_string_views_push(v: Seq<String>, s: String, t: Seq<Seq<char>>)
    requires
        string_views(v) == t,
    ensures
        string_views(v.push(s)) == t.push(s@),
{
    assert(string_views(v.push(s)) =~= t.push(s@));
}

/// Two pushes onto a concatenation extend its right part.
proof fn lemma_concat_push_push(a: Seq<Seq<char>>, b: Seq<Seq<char>>, x: Seq<char>, y: Seq<char>)
    ensures
        (a + b).push(x).push(y) == a + (b + seq![x, y]),
{
    assert((a + b).push(x).push(y) =~= a + (b + seq![x, y]));
}

/// Qemu drive configuration
#[derive(Debug, Clone)]
pub struct QemuDriveConfig {
    pub file: String,
    pub media: String,
    pub format: String,
}

impl View for QemuDriveConfig {
    type V = DriveModel;

    open spec fn view(&self) -> DriveModel {
        DriveModel { file: self.file@, media: self.media@, format: self.format@ }
    }
}

impl QemuDriveConfig {
    pub fn new(file: &str, media: &str, format: &str) -> (r: Self)
        ensures
            r@ == (DriveModel { file: file@, media: media@, format: format@ }),
    {
        Self {
            file: String::from_str(file),
            media: String::from_str(media),
            format: String::from_str(format),
        }
    }
}

/// Qemu run configuration
#[derive(Debug, Clone)]
pub struct QemuConfig {
    pub qemu_path: String,
    pub bios_path: String,
    pub vars_path: String,
    pub shell_path: String,
    pub output_path: String,
    pub drives: Vec<QemuDriveConfig>,
    pub additional_args: Vec<String>,
}

impl View for QemuConfig {
    type V = ConfigModel;

    open spec fn view(&self) -> ConfigModel {
        ConfigModel {
            qemu_path: self.qemu_path@,
            bios_path: self.bios_path@,
            vars_path: self.vars_path@,
            shell_path: self.shell_path@,
            output_path: self.output_path@,
            drives: self.drives@.map_values(|d: QemuDriveConfig| d@),
            additional_args: self.additional_args@.map_values(|s: String| s@),
        }
    }
}

impl Default for QemuConfig {
    /// The documented defaults: the executable resolved on the search
    /// path, well-known image and output file names, no drives and no
    /// extra arguments.
    fn default() -> (r: Self)
        ensures
            r.qemu_path@ == "qemu-system-x86_64"@,
            r.bios_path@ == "OVMF.fd"@,
            r.vars_path@ == "OVMF_VARS.fd"@,
            r.shell_path@ == "UefiShell.iso"@,
            r.output_path@ == "Output.txt"@,
            r.drives@ == Seq::<QemuDriveConfig>::empty(),
            r.additional_args@ == Seq::<String>::empty(),
    {
        Self {
            qemu_path: String::from_str("qemu-system-x86_64"),
            bios_path: String::from_str("OVMF.fd"),
            vars_path: String::from_str("OVMF_VARS.fd"),
            shell_path: String::from_str("UefiShell.iso"),
            output_path: String::from_str("Output.txt"),
            drives: Vec::new(),
            additional_args: Vec::new(),
        }
    }
}

/// Build the value token for a flash-mounted image.
fn pflash_arg(path: &String, index: usize) -> (r: String)
    ensures
        r@ == pflash_arg_spec(path@, index as nat),
{
    String::from_str("if=pflash,format=raw,file=").concat(path.as_str()).concat(",index=").concat(
        dec_string(index).as_str(),
    )
}

/// Build the value token for the boot shell image.
fn shell_arg(path: &String, index: usize) -> (r: String)
    ensures
        r@ == shell_arg_spec(path@, index as nat),
{
    String::from_str("format=raw,file=").concat(path.as_str()).concat(",index=").concat(
        dec_string(index).as_str(),
    )
}

/// Build the value token for a configured drive.
fn drive_arg(drive: &QemuDriveConfig, index: usize) -> (r: String)
    ensures
        r@ == drive_arg_spec(drive@, index as nat),
{
    String::from_str("file=").concat(drive.file.as_str()).concat(",index=").concat(
        dec_string(index).as_str(),
    ).concat(",media=").concat(drive.media.as_str()).concat(",format=").concat(
        drive.format.as_str(),
    )
}

/// Build the value token for the serial redirection.
fn serial_arg(path: &String) -> (r: String)
    ensures
        r@ == serial_arg_spec(path@),
{
    String::from_str("file:").concat(path.as_str())
}

impl QemuConfig {
    /// Serialize the configuration into the exact ordered argument list
    /// the emulator expects.  The configuration itself is not changed;
    /// spawning the process is the caller's business.
    pub fn args(&self) -> (r: Vec<String>)
        requires
            self.drives@.len() + 3 <= usize::MAX,
        ensures
            string_views(r@) == spec_args(self@),
    {
        let mut args: Vec<String> = Vec::new();

        args.push(String::from_str("-drive"));
        args.push(pflash_arg(&self.bios_path, 0));
        args.push(String::from_str("-drive"));
        args.push(pflash_arg(&self.vars_path, 1));
        args.push(String::from_str("-drive"));
        args.push(shell_arg(&self.shell_path, 2));
        proof {
            assert(string_views(args@) =~= fixed_args(self@));
        }

        let mut i: usize = 0;
        while i < self.drives.len()
            invariant
                i <= self.drives@.len(),
                self.drives@.len() + 3 <= usize::MAX,
                string_views(args@) == fixed_args(self@) + drives_args(
                    self@.drives.take(i as int),
                ),
            decreases self.drives@.len() - i,
        {
            let flag = String::from_str("-drive");
            let value = drive_arg(&self.drives[i], 3 + i);
            let ghost pre = args@;
            let ghost before = fixed_args(self@) + drives_args(self@.drives.take(i as int));
            args.push(flag);
            args.push(value);
            i = i + 1;
            proof {
                let m = self@;
                lemma_string_views_push(pre, flag, before);
                lemma_string_views_push(pre.push(flag), value, before.push(flag@));
                lemma_concat_push_push(
                    fixed_args(m),
                    drives_args(m.drives.take(i - 1)),
                    flag@,
                    value@,
                );
                lemma_drives_args_step(m.drives, i as int);
                assert(m.drives[i - 1] == self.drives@[i - 1]@);
                assert(seq![flag@, value@] =~= seq![
                    drive_flag(),
                    drive_arg_spec(m.drives[i - 1], (i + 2) as nat),
                ]);
                assert(string_views(args@) == fixed_args(m) + drives_args(
                    m.drives.take(i as int),
                ));
            }
        }
        proof {
            assert(self@.drives.take(self.drives@.len() as int) =~= self@.drives);
            lemma_drives_args_len(self@.drives);
        }

        let serial_flag_str = String::from_str("-serial");
        let serial_value = serial_arg(&self.output_path);
        let ghost pre_serial = args@;
        let ghost before_serial = fixed_args(self@) + drives_args(self@.drives);
        args.push(serial_flag_str);
        args.push(serial_value);
        proof {
            let m = self@;
            lemma_string_views_push(pre_serial, serial_flag_str, before_serial);
            lemma_string_views_push(
                pre_serial.push(serial_flag_str),
                serial_value,
                before_serial.push(serial_flag_str@),
            );
            assert(before_serial.push(serial_flag_str@).push(serial_value@) =~= fixed_args(m)
                + drives_args(m.drives) + seq![serial_flag(), serial_arg_spec(m.output_path)]
                + m.additional_args.take(0));
        }

        let mut j: usize = 0;
        while j < self.additional_args.len()
            invariant
                j <= self.additional_args@.len(),
                string_views(args@) == fixed_args(self@) + drives_args(self@.drives) + seq![
                    serial_flag(),
                    serial_arg_spec(self@.output_path),
                ] + self@.additional_args.take(j as int),
            decreases self.additional_args@.len() - j,
        {
            let extra = self.additional_args[j].clone();
            let ghost pre = args@;
            let ghost before = fixed_args(self@) + drives_args(self@.drives) + seq![
                serial_flag(),
                serial_arg_spec(self@.output_path),
            ] + self@.additional_args.take(j as int);
            args.push(extra);
            j = j + 1;
            proof {
                let m = self@;
                lemma_string_views_push(pre, extra, before);
                assert(extra@ == m.additional_args[j - 1]);
                assert(before.push(extra@) =~= fixed_args(m) + drives_args(m.drives) + seq![
                    serial_flag(),
                    serial_arg_spec(m.output_path),
                ] + m.additional_args.take(j as int));
            }
        }
        proof {
            assert(self@.additional_args.take(self.additional_args@.len() as int)
                =~= self@.additional_args);
        }

        args
    }
}

} // verus!
