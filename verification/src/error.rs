//! Typed errno results and the fixed errno-to-message table.
//!
//! A raw syscall return encodes failure as a negative errno; `toResult`
//! turns it into a typed `Result`. `SyscallError` carries the errno and
//! translates it to a human-readable message from a fixed table.

#![allow(non_snake_case)]

use vstd::prelude::*;

verus! {

/// Number of entries in the fixed errno message table.
pub const ERRNO_MSGS_SZ: u32 = 133;

// The errno values the library's own rules refer to.
pub const ENOENT: u32 = 2;
pub const EINTR: u32 = 4;
pub const ENOMEM: u32 = 12;
pub const EACCES: u32 = 13;
pub const ENODEV: u32 = 19;
pub const ENOTDIR: u32 = 20;
pub const ETIMEDOUT: u32 = 110;
pub const ESTALE: u32 = 116;

/// A failed syscall, carrying the errno the kernel reported.
#[derive(Clone, Copy, Debug, PartialEq, Eq, Structural)]
pub struct SyscallError {
    pub errno: u32,
}

/// The message of the fixed errno table, as a sequence of characters.
/// Values outside the table translate to a fixed fallback message.
pub open spec fn errno_msg_view(errno: u32) -> Seq<char> {
    if errno == 1 {
        "Operation not permitted"@
    } else if errno == 2 {
        "No such file or directory"@
    } else if errno == 3 {
        "No such process"@
    } else if errno == 4 {
        "Interrupted system call"@
    } else if errno == 5 {
        "Input/output error"@
    } else if errno == 6 {
        "No such device or address"@
    } else if errno == 7 {
        "Argument list too long"@
    } else if errno == 8 {
        "Exec format error"@
    } else if errno == 9 {
        "Bad file descriptor"@
    } else if errno == 10 {
        "No child processes"@
    } else if errno == 11 {
        "Resource temporarily unavailable"@
    } else if errno == 12 {
        "Cannot allocate memory"@
    } else if errno == 13 {
        "Permission denied"@
    } else if errno == 14 {
        "Bad address"@
    } else if errno == 15 {
        "Block device required"@
    } else if errno == 16 {
        "Device or resource busy"@
    } else if errno == 17 {
        "File exists"@
    } else if errno == 18 {
        "Invalid cross-device link"@
    } else if errno == 19 {
        "No such device"@
    } else if errno == 20 {
        "Not a directory"@
    } else if errno == 21 {
        "Is a directory"@
    } else if errno == 22 {
        "Invalid argument"@
    } else if errno == 23 {
        "Too many open files in system"@
    } else if errno == 24 {
        "Too many open files"@
    } else if errno == 25 {
        "Inappropriate ioctl for device"@
    } else if errno == 26 {
        "Text file busy"@
    } else if errno == 27 {
        "File too large"@
    } else if errno == 28 {
        "No space left on device"@
    } else if errno == 29 {
        "Illegal seek"@
    } else if errno == 30 {
        "Read-only file system"@
    } else if errno == 31 {
        "Too many links"@
    } else if errno == 32 {
        "Broken pipe"@
    } else if errno == 33 {
        "Numerical argument out of domain"@
    } else if errno == 34 {
        "Numerical result out of range"@
    } else if errno == 35 {
        "Resource deadlock avoided"@
    } else if errno == 36 {
        "File name too long"@
    } else if errno == 37 {
        "No locks available"@
    } else if errno == 38 {
        "Function not implemented"@
    } else if errno == 39 {
        "Directory not empty"@
    } else if errno == 40 {
        "Too many levels of symbolic links"@
    } else if errno == 41 {
        "Unknown error 41"@
    } else if errno == 42 {
        "No message of desired type"@
    } else if errno == 43 {
        "Identifier removed"@
    } else if errno == 44 {
        "Channel number out of range"@
    } else if errno == 45 {
        "Level 2 not synchronized"@
    } else if errno == 46 {
        "Level 3 halted"@
    } else if errno == 47 {
        "Level 3 reset"@
    } else if errno == 48 {
        "Link number out of range"@
    } else if errno == 49 {
        "Protocol driver not attached"@
    } else if errno == 50 {
        "No CSI structure available"@
    } else if errno == 51 {
        "Level 2 halted"@
    } else if errno == 52 {
        "Invalid exchange"@
    } else if errno == 53 {
        "Invalid request descriptor"@
    } else if errno == 54 {
        "Exchange full"@
    } else if errno == 55 {
        "No anode"@
    } else if errno == 56 {
        "Invalid request code"@
    } else if errno == 57 {
        "Invalid slot"@
    } else if errno == 58 {
        "Unknown error 58"@
    } else if errno == 59 {
        "Bad font file format"@
    } else if errno == 60 {
        "Device not a stream"@
    } else if errno == 61 {
        "No data available"@
    } else if errno == 62 {
        "Timer expired"@
    } else if errno == 63 {
        "Out of streams resources"@
    } else if errno == 64 {
        "Machine is not on the network"@
    } else if errno == 65 {
        "Package not installed"@
    } else if errno == 66 {
        "Object is remote"@
    } else if errno == 67 {
        "Link has been severed"@
    } else if errno == 68 {
        "Advertise error"@
    } else if errno == 69 {
        "Srmount error"@
    } else if errno == 70 {
        "Communication error on send"@
    } else if errno == 71 {
        "Protocol error"@
    } else if errno == 72 {
        "Multihop attempted"@
    } else if errno == 73 {
        "RFS specific error"@
    } else if errno == 74 {
        "Bad message"@
    } else if errno == 75 {
        "Value too large for defined data type"@
    } else if errno == 76 {
        "Name not unique on network"@
    } else if errno == 77 {
        "File descriptor in bad state"@
    } else if errno == 78 {
        "Remote address changed"@
    } else if errno == 79 {
        "Can not access a needed shared library"@
    } else if errno == 80 {
        "Accessing a corrupted shared library"@
    } else if errno == 81 {
        ".lib section in a.out corrupted"@
    } else if errno == 82 {
        "Attempting to link in too many shared libraries"@
    } else if errno == 83 {
        "Cannot exec a shared library directly"@
    } else if errno == 84 {
        "Invalid or incomplete multibyte or wide character"@
    } else if errno == 85 {
        "Interrupted system call should be restarted"@
    } else if errno == 86 {
        "Streams pipe error"@
    } else if errno == 87 {
        "Too many users"@
    } else if errno == 88 {
        "Socket operation on non-socket"@
    } else if errno == 89 {
        "Destination address required"@
    } else if errno == 90 {
        "Message too long"@
    } else if errno == 91 {
        "Protocol wrong type for socket"@
    } else if errno == 92 {
        "Protocol not available"@
    } else if errno == 93 {
        "Protocol not supported"@
    } else if errno == 94 {
        "Socket type not supported"@
    } else if errno == 95 {
        "Operation not supported"@
    } else if errno == 96 {
        "Protocol family not supported"@
    } else if errno == 97 {
        "Address family not supported by protocol"@
    } else if errno == 98 {
        "Address already in use"@
    } else if errno == 99 {
        "Cannot assign requested address"@
    } else if errno == 100 {
        "Network is down"@
    } else if errno == 101 {
        "Network is unreachable"@
    } else if errno == 102 {
        "Network dropped connection on reset"@
    } else if errno == 103 {
        "Software caused connection abort"@
    } else if errno == 104 {
        "Connection reset by peer"@
    } else if errno == 105 {
        "No buffer space available"@
    } else if errno == 106 {
        "Transport endpoint is already connected"@
    } else if errno == 107 {
        "Transport endpoint is not connected"@
    } else if errno == 108 {
        "Cannot send after transport endpoint shutdown"@
    } else if errno == 109 {
        "Too many references: cannot splice"@
    } else if errno == 110 {
        "Connection timed out"@
    } else if errno == 111 {
        "Connection refused"@
    } else if errno == 112 {
        "Host is down"@
    } else if errno == 113 {
        "No route to host"@
    } else if errno == 114 {
        "Operation already in progress"@
    } else if errno == 115 {
        "Operation now in progress"@
    } else if errno == 116 {
        "Stale file handle"@
    } else if errno == 117 {
        "Structure needs cleaning"@
    } else if errno == 118 {
        "Not a XENIX named type file"@
    } else if errno == 119 {
        "No XENIX semaphores available"@
    } else if errno == 120 {
        "Is a named type file"@
    } else if errno == 121 {
        "Remote I/O error"@
    } else if errno == 122 {
        "Disk quota exceeded"@
    } else if errno == 123 {
        "No medium found"@
    } else if errno == 124 {
        "Wrong medium type"@
    } else if errno == 125 {
        "Operation canceled"@
    } else if errno == 126 {
        "Required key not available"@
    } else if errno == 127 {
        "Key has expired"@
    } else if errno == 128 {
        "Key has been revoked"@
    } else if errno == 129 {
        "Key was rejected by service"@
    } else if errno == 130 {
        "Owner died"@
    } else if errno == 131 {
        "State not recoverable"@
    } else if errno == 132 {
        "Operation not possible due to RF-kill"@
    } else if errno == 133 {
        "Memory page has hardware error"@
    } else {
        "Unknown errno code"@
    }
}

/// The message of the fixed errno table for one errno value.
pub fn errno_message(errno: u32) -> (r: &'static str)
    ensures
        r@ == errno_msg_view(errno),
{
    match errno {
        1u32 => "Operation not permitted",
        2u32 => "No such file or directory",
        3u32 => "No such process",
        4u32 => "Interrupted system call",
        5u32 => "Input/output error",
        6u32 => "No such device or address",
        7u32 => "Argument list too long",
        8u32 => "Exec format error",
        9u32 => "Bad file descriptor",
        10u32 => "No child processes",
        11u32 => "Resource temporarily unavailable",
        12u32 => "Cannot allocate memory",
        13u32 => "Permission denied",
        14u32 => "Bad address",
        15u32 => "Block device required",
        16u32 => "Device or resource busy",
        17u32 => "File exists",
        18u32 => "Invalid cross-device link",
        19u32 => "No such device",
        20u32 => "Not a directory",
        21u32 => "Is a directory",
        22u32 => "Invalid argument",
        23u32 => "Too many open files in system",
        24u32 => "Too many open files",
        25u32 => "Inappropriate ioctl for device",
        26u32 => "Text file busy",
        27u32 => "File too large",
        28u32 => "No space left on device",
        29u32 => "Illegal seek",
        30u32 => "Read-only file system",
        31u32 => "Too many links",
        32u32 => "Broken pipe",
        33u32 => "Numerical argument out of domain",
        34u32 => "Numerical result out of range",
        35u32 => "Resource deadlock avoided",
        36u32 => "File name too long",
        37u32 => "No locks available",
        38u32 => "Function not implemented",
        39u32 => "Directory not empty",
        40u32 => "Too many levels of symbolic links",
        41u32 => "Unknown error 41",
        42u32 => "No message of desired type",
        43u32 => "Identifier removed",
        44u32 => "Channel number out of range",
        45u32 => "Level 2 not synchronized",
        46u32 => "Level 3 halted",
        47u32 => "Level 3 reset",
        48u32 => "Link number out of range",
        49u32 => "Protocol driver not attached",
        50u32 => "No CSI structure available",
        51u32 => "Level 2 halted",
        52u32 => "Invalid exchange",
        53u32 => "Invalid request descriptor",
        54u32 => "Exchange full",
        55u32 => "No anode",
        56u32 => "Invalid request code",
        57u32 => "Invalid slot",
        58u32 => "Unknown error 58",
        59u32 => "Bad font file format",
        60u32 => "Device not a stream",
        61u32 => "No data available",
        62u32 => "Timer expired",
        63u32 => "Out of streams resources",
        64u32 => "Machine is not on the network",
        65u32 => "Package not installed",
        66u32 => "Object is remote",
        67u32 => "Link has been severed",
        68u32 => "Advertise error",
        69u32 => "Srmount error",
        70u32 => "Communication error on send",
        71u32 => "Protocol error",
        72u32 => "Multihop attempted",
        73u32 => "RFS specific error",
        74u32 => "Bad message",
        75u32 => "Value too large for defined data type",
        76u32 => "Name not unique on network",
        77u32 => "File descriptor in bad state",
        78u32 => "Remote address changed",
        79u32 => "Can not access a needed shared library",
        80u32 => "Accessing a corrupted shared library",
        81u32 => ".lib section in a.out corrupted",
        82u32 => "Attempting to link in too many shared libraries",
        83u32 => "Cannot exec a shared library directly",
        84u32 => "Invalid or incomplete multibyte or wide character",
        85u32 => "Interrupted system call should be restarted",
        86u32 => "Streams pipe error",
        87u32 => "Too many users",
        88u32 => "Socket operation on non-socket",
        89u32 => "Destination address required",
        90u32 => "Message too long",
        91u32 => "Protocol wrong type for socket",
        92u32 => "Protocol not available",
        93u32 => "Protocol not supported",
        94u32 => "Socket type not supported",
        95u32 => "Operation not supported",
        96u32 => "Protocol family not supported",
        97u32 => "Address family not supported by protocol",
        98u32 => "Address already in use",
        99u32 => "Cannot assign requested address",
        100u32 => "Network is down",
        101u32 => "Network is unreachable",
        102u32 => "Network dropped connection on reset",
        103u32 => "Software caused connection abort",
        104u32 => "Connection reset by peer",
        105u32 => "No buffer space available",
        106u32 => "Transport endpoint is already connected",
        107u32 => "Transport endpoint is not connected",
        108u32 => "Cannot send after transport endpoint shutdown",
        109u32 => "Too many references: cannot splice",
        110u32 => "Connection timed out",
        111u32 => "Connection refused",
        112u32 => "Host is down",
        113u32 => "No route to host",
        114u32 => "Operation already in progress",
        115u32 => "Operation now in progress",
        116u32 => "Stale file handle",
        117u32 => "Structure needs cleaning",
        118u32 => "Not a XENIX named type file",
        119u32 => "No XENIX semaphores available",
        120u32 => "Is a named type file",
        121u32 => "Remote I/O error",
        122u32 => "Disk quota exceeded",
        123u32 => "No medium found",
        124u32 => "Wrong medium type",
        125u32 => "Operation canceled",
        126u32 => "Required key not available",
        127u32 => "Key has expired",
        128u32 => "Key has been revoked",
        129u32 => "Key was rejected by service",
        130u32 => "Owner died",
        131u32 => "State not recoverable",
        132u32 => "Operation not possible due to RF-kill",
        133u32 => "Memory page has hardware error",
        _ => "Unknown errno code",
    }
}

/// Every message of the table, the fallback included, is non-empty.
pub proof fn lemma_errno_msg_nonempty(errno: u32)
    ensures
        errno_msg_view(errno).len() > 0,
{
    if errno == 1 {
        reveal_strlit("Operation not permitted");
    } else if errno == 2 {
        reveal_strlit("No such file or directory");
    } else if errno == 3 {
        reveal_strlit("No such process");
    } else if errno == 4 {
        reveal_strlit("Interrupted system call");
    } else if errno == 5 {
        reveal_strlit("Input/output error");
    } else if errno == 6 {
        reveal_strlit("No such device or address");
    } else if errno == 7 {
        reveal_strlit("Argument list too long");
    } else if errno == 8 {
        reveal_strlit("Exec format error");
    } else if errno == 9 {
        reveal_strlit("Bad file descriptor");
    } else if errno == 10 {
        reveal_strlit("No child processes");
    } else if errno == 11 {
        reveal_strlit("Resource temporarily unavailable");
    } else if errno == 12 {
        reveal_strlit("Cannot allocate memory");
    } else if errno == 13 {
        reveal_strlit("Permission denied");
    } else if errno == 14 {
        reveal_strlit("Bad address");
    } else if errno == 15 {
        reveal_strlit("Block device required");
    } else if errno == 16 {
        reveal_strlit("Device or resource busy");
    } else if errno == 17 {
        reveal_strlit("File exists");
    } else if errno == 18 {
        reveal_strlit("Invalid cross-device link");
    } else if errno == 19 {
        reveal_strlit("No such device");
    } else if errno == 20 {
        reveal_strlit("Not a directory");
    } else if errno == 21 {
        reveal_strlit("Is a directory");
    } else if errno == 22 {
        reveal_strlit("Invalid argument");
    } else if errno == 23 {
        reveal_strlit("Too many open files in system");
    } else if errno == 24 {
        reveal_strlit("Too many open files");
    } else if errno == 25 {
        reveal_strlit("Inappropriate ioctl for device");
    } else if errno == 26 {
        reveal_strlit("Text file busy");
    } else if errno == 27 {
        reveal_strlit("File too large");
    } else if errno == 28 {
        reveal_strlit("No space left on device");
    } else if errno == 29 {
        reveal_strlit("Illegal seek");
    } else if errno == 30 {
        reveal_strlit("Read-only file system");
    } else if errno == 31 {
        reveal_strlit("Too many links");
    } else if errno == 32 {
        reveal_strlit("Broken pipe");
    } else if errno == 33 {
        reveal_strlit("Numerical argument out of domain");
    } else if errno == 34 {
        reveal_strlit("Numerical result out of range");
    } else if errno == 35 {
        reveal_strlit("Resource deadlock avoided");
    } else if errno == 36 {
        reveal_strlit("File name too long");
    } else if errno == 37 {
        reveal_strlit("No locks available");
    } else if errno == 38 {
        reveal_strlit("Function not implemented");
    } else if errno == 39 {
        reveal_strlit("Directory not empty");
    } else if errno == 40 {
        reveal_strlit("Too many levels of symbolic links");
    } else if errno == 41 {
        reveal_strlit("Unknown error 41");
    } else if errno == 42 {
        reveal_strlit("No message of desired type");
    } else if errno == 43 {
        reveal_strlit("Identifier removed");
    } else if errno == 44 {
        reveal_strlit("Channel number out of range");
    } else if errno == 45 {
        reveal_strlit("Level 2 not synchronized");
    } else if errno == 46 {
        reveal_strlit("Level 3 halted");
    } else if errno == 47 {
        reveal_strlit("Level 3 reset");
    } else if errno == 48 {
        reveal_strlit("Link number out of range");
    } else if errno == 49 {
        reveal_strlit("Protocol driver not attached");
    } else if errno == 50 {
        reveal_strlit("No CSI structure available");
    } else if errno == 51 {
        reveal_strlit("Level 2 halted");
    } else if errno == 52 {
        reveal_strlit("Invalid exchange");
    } else if errno == 53 {
        reveal_strlit("Invalid request descriptor");
    } else if errno == 54 {
        reveal_strlit("Exchange full");
    } else if errno == 55 {
        reveal_strlit("No anode");
    } else if errno == 56 {
        reveal_strlit("Invalid request code");
    } else if errno == 57 {
        reveal_strlit("Invalid slot");
    } else if errno == 58 {
        reveal_strlit("Unknown error 58");
    } else if errno == 59 {
        reveal_strlit("Bad font file format");
    } else if errno == 60 {
        reveal_strlit("Device not a stream");
    } else if errno == 61 {
        reveal_strlit("No data available");
    } else if errno == 62 {
        reveal_strlit("Timer expired");
    } else if errno == 63 {
        reveal_strlit("Out of streams resources");
    } else if errno == 64 {
        reveal_strlit("Machine is not on the network");
    } else if errno == 65 {
        reveal_strlit("Package not installed");
    } else if errno == 66 {
        reveal_strlit("Object is remote");
    } else if errno == 67 {
        reveal_strlit("Link has been severed");
    } else if errno == 68 {
        reveal_strlit("Advertise error");
    } else if errno == 69 {
        reveal_strlit("Srmount error");
    } else if errno == 70 {
        reveal_strlit("Communication error on send");
    } else if errno == 71 {
        reveal_strlit("Protocol error");
    } else if errno == 72 {
        reveal_strlit("Multihop attempted");
    } else if errno == 73 {
        reveal_strlit("RFS specific error");
    } else if errno == 74 {
        reveal_strlit("Bad message");
    } else if errno == 75 {
        reveal_strlit("Value too large for defined data type");
    } else if errno == 76 {
        reveal_strlit("Name not unique on network");
    } else if errno == 77 {
        reveal_strlit("File descriptor in bad state");
    } else if errno == 78 {
        reveal_strlit("Remote address changed");
    } else if errno == 79 {
        reveal_strlit("Can not access a needed shared library");
    } else if errno == 80 {
        reveal_strlit("Accessing a corrupted shared library");
    } else if errno == 81 {
        reveal_strlit(".lib section in a.out corrupted");
    } else if errno == 82 {
        reveal_strlit("Attempting to link in too many shared libraries");
    } else if errno == 83 {
        reveal_strlit("Cannot exec a shared library directly");
    } else if errno == 84 {
        reveal_strlit("Invalid or incomplete multibyte or wide character");
    } else if errno == 85 {
        reveal_strlit("Interrupted system call should be restarted");
    } else if errno == 86 {
        reveal_strlit("Streams pipe error");
    } else if errno == 87 {
        reveal_strlit("Too many users");
    } else if errno == 88 {
        reveal_strlit("Socket operation on non-socket");
    } else if errno == 89 {
        reveal_strlit("Destination address required");
    } else if errno == 90 {
        reveal_strlit("Message too long");
    } else if errno == 91 {
        reveal_strlit("Protocol wrong type for socket");
    } else if errno == 92 {
        reveal_strlit("Protocol not available");
    } else if errno == 93 {
        reveal_strlit("Protocol not supported");
    } else if errno == 94 {
        reveal_strlit("Socket type not supported");
    } else if errno == 95 {
        reveal_strlit("Operation not supported");
    } else if errno == 96 {
        reveal_strlit("Protocol family not supported");
    } else if errno == 97 {
        reveal_strlit("Address family not supported by protocol");
    } else if errno == 98 {
        reveal_strlit("Address already in use");
    } else if errno == 99 {
        reveal_strlit("Cannot assign requested address");
    } else if errno == 100 {
        reveal_strlit("Network is down");
    } else if errno == 101 {
        reveal_strlit("Network is unreachable");
    } else if errno == 102 {
        reveal_strlit("Network dropped connection on reset");
    } else if errno == 103 {
        reveal_strlit("Software caused connection abort");
    } else if errno == 104 {
        reveal_strlit("Connection reset by peer");
    } else if errno == 105 {
        reveal_strlit("No buffer space available");
    } else if errno == 106 {
        reveal_strlit("Transport endpoint is already connected");
    } else if errno == 107 {
        reveal_strlit("Transport endpoint is not connected");
    } else if errno == 108 {
        reveal_strlit("Cannot send after transport endpoint shutdown");
    } else if errno == 109 {
        reveal_strlit("Too many references: cannot splice");
    } else if errno == 110 {
        reveal_strlit("Connection timed out");
    } else if errno == 111 {
        reveal_strlit("Connection refused");
    } else if errno == 112 {
        reveal_strlit("Host is down");
    } else if errno == 113 {
        reveal_strlit("No route to host");
    } else if errno == 114 {
        reveal_strlit("Operation already in progress");
    } else if errno == 115 {
        reveal_strlit("Operation now in progress");
    } else if errno == 116 {
        reveal_strlit("Stale file handle");
    } else if errno == 117 {
        reveal_strlit("Structure needs cleaning");
    } else if errno == 118 {
        reveal_strlit("Not a XENIX named type file");
    } else if errno == 119 {
        reveal_strlit("No XENIX semaphores available");
    } else if errno == 120 {
        reveal_strlit("Is a named type file");
    } else if errno == 121 {
        reveal_strlit("Remote I/O error");
    } else if errno == 122 {
        reveal_strlit("Disk quota exceeded");
    } else if errno == 123 {
        reveal_strlit("No medium found");
    } else if errno == 124 {
        reveal_strlit("Wrong medium type");
    } else if errno == 125 {
        reveal_strlit("Operation canceled");
    } else if errno == 126 {
        reveal_strlit("Required key not available");
    } else if errno == 127 {
        reveal_strlit("Key has expired");
    } else if errno == 128 {
        reveal_strlit("Key has been revoked");
    } else if errno == 129 {
        reveal_strlit("Key was rejected by service");
    } else if errno == 130 {
        reveal_strlit("Owner died");
    } else if errno == 131 {
        reveal_strlit("State not recoverable");
    } else if errno == 132 {
        reveal_strlit("Operation not possible due to RF-kill");
    } else if errno == 133 {
        reveal_strlit("Memory page has hardware error");
    } else {
        reveal_strlit("Unknown errno code");
    }
}

/// The message is a function of the errno alone: repeated lookups for the
/// same errno always yield the same message.
pub proof fn lemma_errno_msg_stable(a: SyscallError, b: SyscallError)
    requires
        a.errno == b.errno,
    ensures
        errno_msg_view(a.errno) == errno_msg_view(b.errno),
{
}

impl SyscallError {
    pub fn new(errno: u32) -> (e: SyscallError)
        ensures
            e == (SyscallError { errno }),
    {
        SyscallError { errno }
    }

    /// The errno this error carries, as the signed integer the kernel uses.
    pub fn get_errno(&self) -> (r: i32)
        ensures
            r == self.errno as i32,
            self.errno <= i32::MAX ==> r == self.errno,
    {
        self.errno as i32
    }

    /// The fixed table's message for this errno; errnos outside the table
    /// translate to a fixed fallback message.
    pub fn get_msg(&self) -> (r: &'static str)
        ensures
            r@ == errno_msg_view(self.errno),
    {
        errno_message(self.errno)
    }
}

/// Whether a failed syscall should simply be retried: only an
/// interruption by a signal is, every other errno is surfaced.
pub fn should_retry_syscall(e: &SyscallError) -> (r: bool)
    ensures
        r == (e.errno == EINTR),
{
    e.errno == EINTR
}

/// Converts a raw syscall return value into a typed result: a non-negative
/// return is the success value, a negative return carries `-errno`.
pub fn toResult(result: i64) -> (r: Result<u64, SyscallError>)
    requires
        i64::MIN < result,
    ensures
        result >= 0 ==> (r matches Ok(v) && v == result),
        result < 0 ==> (r matches Err(e) && e.errno == (-result) as u32),
        result < 0 && -result <= u32::MAX ==> (r matches Err(e) && e.errno == -result),
{
    if result >= 0 {
        Ok(result as u64)
    } else {
        Err(SyscallError { errno: (-result) as u32 })
    }
}

/// The whole fixed errno message table, in errno order: entry `i` holds the
/// message for errno `i + 1`.
pub fn get_errno_msgs() -> (r: Vec<&'static str>)
    ensures
        r@.len() == ERRNO_MSGS_SZ,
        forall|i: int| 0 <= i < r@.len() ==> (#[trigger] r@[i])@ == errno_msg_view((i + 1) as u32),
{
    let mut msgs: Vec<&'static str> = Vec::new();
    let mut e: u32 = 1;
    while e <= ERRNO_MSGS_SZ
        invariant
            1 <= e <= ERRNO_MSGS_SZ + 1,
            msgs@.len() == e - 1,
            forall|i: int| 0 <= i < msgs@.len() ==> (#[trigger] msgs@[i])@ == errno_msg_view((i + 1) as u32),
        decreases ERRNO_MSGS_SZ + 1 - e,
    {
        msgs.push(errno_message(e));
        e = e + 1;
    }
    msgs
}

} // verus!
