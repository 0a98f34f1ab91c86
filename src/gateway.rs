//! The command lines by which the gateway carries out each operation on instances and devices.
use vstd::prelude::*;
use crate::relocate::{GatewayOp, OpView};
use crate::text::{chars_of, lower_of, lowercase, views};

verus! {

/// An invocation of the instance-management command line (`wsl`).
#[derive(Debug, Clone, PartialEq)]
pub enum WslCommand {
    ListVerbose,
    ListRunning,
    ListOnline,
    Status,
    StartBackground { name: String },
    Terminate { name: String },
    Shutdown,
    SetDefault { name: String },
    DropCaches,
    Export { name: String, path: String },
    Import { name: String, location: String, tar_path: String },
    Unregister { name: String },
    Install { name: String },
    ReadConfig { name: String },
    MountDisk { device: String },
    UnmountDisk { device: String },
    MountFolder { distro: String, source: String, target: String },
    UnmountFolder { distro: String, target: String },
    ListBlockDevices,
}

/// The script that binds a host folder: the target and source come as positional arguments, so
/// neither is ever read as shell code.
pub open spec fn bind_script() -> Seq<char> {
    "mkdir -p \"$1\" && mount --bind \"$2\" \"$1\""@
}

/// The arguments that `wsl` receives for a command.
pub open spec fn wsl_args(c: WslCommand) -> Seq<Seq<char>> {
    match c {
        WslCommand::ListVerbose => seq!["--list"@, "--verbose"@],
        WslCommand::ListRunning => seq!["--list"@, "--running"@],
        WslCommand::ListOnline => seq!["--list"@, "--online"@],
        WslCommand::Status => seq!["--status"@],
        WslCommand::StartBackground { name } => seq!["-d"@, name@, "--"@, "echo"@, "started"@],
        WslCommand::Terminate { name } => seq!["--terminate"@, name@],
        WslCommand::Shutdown => seq!["--shutdown"@],
        WslCommand::SetDefault { name } => seq!["--set-default"@, name@],
        WslCommand::DropCaches => seq![
            "-u"@, "root"@, "--"@, "sh"@, "-c"@, "echo 1 > /proc/sys/vm/drop_caches || true"@,
        ],
        WslCommand::Export { name, path } => seq!["--export"@, name@, path@],
        WslCommand::Import { name, location, tar_path } => seq!["--import"@, name@, location@, tar_path@],
        WslCommand::Unregister { name } => seq!["--unregister"@, name@],
        WslCommand::Install { name } => seq!["--install"@, "-d"@, name@],
        WslCommand::ReadConfig { name } => seq!["-d"@, name@, "-u"@, "root"@, "--"@, "cat"@, "/etc/wsl.conf"@],
        WslCommand::MountDisk { device } => seq!["--mount"@, device@, "--bare"@],
        WslCommand::UnmountDisk { device } => seq!["--unmount"@, device@],
        WslCommand::MountFolder { distro, source, target } => seq![
            "-d"@, distro@, "-u"@, "root"@, "--"@, "sh"@, "-c"@, bind_script(), "--"@, target@, source@,
        ],
        WslCommand::UnmountFolder { distro, target } => seq!["-d"@, distro@, "-u"@, "root"@, "--"@, "umount"@, target@],
        WslCommand::ListBlockDevices => seq![
            "-u"@, "root"@, "--"@, "lsblk"@, "-o"@, "NAME,MOUNTPOINT"@, "--noheadings"@,
        ],
    }
}

fn push_arg(v: &mut Vec<String>, s: &str)
    ensures
        views(final(v)@) == views(old(v)@).push(s@),
{
    v.push(String::from_str(s));
    assert(views(v@) =~= views(old(v)@).push(s@));
}

fn args_of(parts: &[&str]) -> (r: Vec<String>)
    ensures
        views(r@) == parts@.map_values(|s: &str| s@),
{
    let mut r: Vec<String> = Vec::new();
    let mut i: usize = 0;
    while i < parts.len()
        invariant
            i <= parts@.len(),
            views(r@) =~= parts@.subrange(0, i as int).map_values(|s: &str| s@),
        decreases parts@.len() - i,
    {
        push_arg(&mut r, parts[i]);
        assert(parts@.subrange(0, i + 1) =~= parts@.subrange(0, i as int).push(parts@[i as int]));
        i = i + 1;
    }
    assert(parts@.subrange(0, parts@.len() as int) =~= parts@);
    r
}

impl WslCommand {
    /// Whether the command needs administrator rights.
    pub fn needs_elevation(&self) -> (r: bool)
        ensures
            r == (self is MountDisk),
    {
        matches!(self, WslCommand::MountDisk { .. })
    }

    /// The arguments that `wsl` receives for this command.
    pub fn args(&self) -> (r: Vec<String>)
        ensures
            views(r@) == wsl_args(*self),
    {
        let r = match self {
            WslCommand::ListVerbose => args_of(&["--list", "--verbose"]),
            WslCommand::ListRunning => args_of(&["--list", "--running"]),
            WslCommand::ListOnline => args_of(&["--list", "--online"]),
            WslCommand::Status => args_of(&["--status"]),
            WslCommand::StartBackground { name } => args_of(&["-d", name.as_str(), "--", "echo", "started"]),
            WslCommand::Terminate { name } => args_of(&["--terminate", name.as_str()]),
            WslCommand::Shutdown => args_of(&["--shutdown"]),
            WslCommand::SetDefault { name } => args_of(&["--set-default", name.as_str()]),
            WslCommand::DropCaches => args_of(
                &["-u", "root", "--", "sh", "-c", "echo 1 > /proc/sys/vm/drop_caches || true"],
            ),
            WslCommand::Export { name, path } => args_of(&["--export", name.as_str(), path.as_str()]),
            WslCommand::Import { name, location, tar_path } => args_of(
                &["--import", name.as_str(), location.as_str(), tar_path.as_str()],
            ),
            WslCommand::Unregister { name } => args_of(&["--unregister", name.as_str()]),
            WslCommand::Install { name } => args_of(&["--install", "-d", name.as_str()]),
            WslCommand::ReadConfig { name } => args_of(
                &["-d", name.as_str(), "-u", "root", "--", "cat", "/etc/wsl.conf"],
            ),
            WslCommand::MountDisk { device } => args_of(&["--mount", device.as_str(), "--bare"]),
            WslCommand::UnmountDisk { device } => args_of(&["--unmount", device.as_str()]),
            WslCommand::MountFolder { distro, source, target } => args_of(
                &[
                    "-d",
                    distro.as_str(),
                    "-u",
                    "root",
                    "--",
                    "sh",
                    "-c",
                    "mkdir -p \"$1\" && mount --bind \"$2\" \"$1\"",
                    "--",
                    target.as_str(),
                    source.as_str(),
                ],
            ),
            WslCommand::UnmountFolder { distro, target } => args_of(
                &["-d", distro.as_str(), "-u", "root", "--", "umount", target.as_str()],
            ),
            WslCommand::ListBlockDevices => args_of(
                &["-u", "root", "--", "lsblk", "-o", "NAME,MOUNTPOINT", "--noheadings"],
            ),
        };
        proof {
            assert(views(r@) =~= wsl_args(*self));
        }
        r
    }

    /// The command that carries out an operation of a clone or move protocol; deleting an
    /// archive is a file operation and has none.
    pub fn for_op(op: &GatewayOp) -> (r: Option<WslCommand>)
        ensures
            match op@ {
                OpView::Export { name, artifact } => r matches Some(WslCommand::Export { name: n, path: p }) && n@ == name && p@ == artifact,
                OpView::Import { name, location, artifact } => r matches Some(WslCommand::Import { name: n, location: l, tar_path: p })
                    && n@ == name && l@ == location && p@ == artifact,
                OpView::Unregister { name } => r matches Some(WslCommand::Unregister { name: n }) && n@ == name,
                OpView::RemoveArtifact { .. } => r is None,
            },
    {
        match op {
            GatewayOp::Export { name, artifact } => Some(WslCommand::Export { name: name.clone(), path: artifact.clone() }),
            GatewayOp::Import { name, location, artifact } => Some(WslCommand::Import {
                name: name.clone(),
                location: location.clone(),
                tar_path: artifact.clone(),
            }),
            GatewayOp::Unregister { name } => Some(WslCommand::Unregister { name: name.clone() }),
            GatewayOp::RemoveArtifact { .. } => None,
        }
    }
}

/// `path` with each `\` turned into `/` and each `:` removed.
pub open spec fn slashed_no_colon(path: Seq<char>) -> Seq<char>
    decreases path.len(),
{
    if path.len() == 0 {
        seq![]
    } else if path.last() == ':' {
        slashed_no_colon(path.drop_last())
    } else if path.last() == '\\' {
        slashed_no_colon(path.drop_last()).push('/')
    } else {
        slashed_no_colon(path.drop_last()).push(path.last())
    }
}

/// Where a Windows path appears inside an instance: `C:\Users\x` becomes `/mnt/c/users/x`, the
/// whole path lower-cased.
pub open spec fn mount_source_of(windows_path: Seq<char>) -> Seq<char> {
    "/mnt/"@ + lower_of(slashed_no_colon(windows_path))
}

/// `path` with `\` turned into `/` and `:` removed.
pub fn slash_path(path: &str) -> (r: String)
    ensures
        r@ == slashed_no_colon(path@),
{
    let cs = chars_of(path);
    let mut out = String::new();
    let mut i: usize = 0;
    while i < cs.len()
        invariant
            i <= cs@.len(),
            cs@ == path@,
            out@ == slashed_no_colon(path@.subrange(0, i as int)),
        decreases cs@.len() - i,
    {
        assert(path@.subrange(0, i + 1).drop_last() =~= path@.subrange(0, i as int));
        let c = cs[i];
        if c == '\\' {
            out.append("/");
        } else if c != ':' {
            out.append(path.substring_char(i, i + 1));
        }
        proof {
            reveal_strlit("/");
            assert(out@ =~= slashed_no_colon(path@.subrange(0, i + 1)));
        }
        i = i + 1;
    }
    assert(path@.subrange(0, path@.len() as int) =~= path@);
    out
}

/// The command that binds the host folder `windows_path` at `linux_path` inside `distro`.
pub fn mount_folder_command(distro: &str, windows_path: &str, linux_path: &str) -> (r: WslCommand)
    ensures
        r matches WslCommand::MountFolder { distro: d, source: s, target: t }
            && d@ == distro@ && s@ == mount_source_of(windows_path@) && t@ == linux_path@,
{
    let slashed = slash_path(windows_path);
    let lower = lowercase(slashed.as_str());
    let mut source = String::from_str("/mnt/");
    source.append(lower.as_str());
    WslCommand::MountFolder {
        distro: String::from_str(distro),
        source,
        target: String::from_str(linux_path),
    }
}

/// The arguments that `usbipd` receives to attach a device, to one instance when named.
pub open spec fn attach_args(bus_id: Seq<char>, distro: Option<Seq<char>>) -> Seq<Seq<char>> {
    seq!["attach"@, "--wsl"@, "--busid"@, bus_id] + match distro {
        Some(d) => seq!["--distribution"@, d],
        None => seq![],
    }
}

/// The `usbipd` arguments that attach the device `bus_id`, to `distro` when given.
pub fn attach_usb_args(bus_id: &str, distro: Option<&str>) -> (r: Vec<String>)
    ensures
        views(r@) == attach_args(bus_id@, match distro { Some(d) => Some(d@), None => None }),
{
    let mut r = args_of(&["attach", "--wsl", "--busid", bus_id]);
    if let Some(d) = distro {
        push_arg(&mut r, "--distribution");
        push_arg(&mut r, d);
    }
    assert(views(r@) =~= attach_args(bus_id@, match distro { Some(d) => Some(d@), None => None }));
    r
}

/// The `usbipd` arguments that detach the device `bus_id`.
pub fn detach_usb_args(bus_id: &str) -> (r: Vec<String>)
    ensures
        views(r@) == seq!["detach"@, "--busid"@, bus_id@],
{
    let r = args_of(&["detach", "--busid", bus_id]);
    assert(views(r@) =~= seq!["detach"@, "--busid"@, bus_id@]);
    r
}

} // verus!
