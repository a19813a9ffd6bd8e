//! Host classification and the quantization advice derived from it.

use crate::registry::quant_tags;
use crate::text::{contains, occurs_in, same_text};
use vstd::prelude::*;

verus! {

/// The kind of host the tool runs on.
#[derive(Debug, Clone, Copy, PartialEq, Eq, Structural)]
pub enum Platform {
    Linux,
    MacOS,
    Windows,
    Termux,
    Unknown,
}

/// The kind of a host whose operating system calls itself `os` and whose
/// environment holds `prefix` under the name `PREFIX`. A Linux host whose
/// prefix mentions `com.termux` is a Termux host; a system that is none of
/// `linux`, `macos` and `windows` is unknown.
pub open spec fn platform_of(os: Seq<char>, prefix: Option<Seq<char>>) -> Platform {
    if os == "linux"@ {
        if prefix is Some && occurs_in(prefix.unwrap(), "com.termux"@) {
            Platform::Termux
        } else {
            Platform::Linux
        }
    } else if os == "macos"@ {
        Platform::MacOS
    } else if os == "windows"@ {
        Platform::Windows
    } else {
        Platform::Unknown
    }
}

/// Classifies the host from the name of its operating system and the value
/// of `PREFIX` in its environment, if it has one.
pub fn detect_platform(os: &str, prefix: Option<&str>) -> (platform: Platform)
    ensures
        platform == platform_of(
            os@,
            match prefix {
                Some(p) => Some(p@),
                None => None,
            },
        ),
{
    if same_text(os, "linux") {
        match prefix {
            Some(p) => {
                if contains(p, "com.termux") {
                    Platform::Termux
                } else {
                    Platform::Linux
                }
            },
            None => Platform::Linux,
        }
    } else if same_text(os, "macos") {
        Platform::MacOS
    } else if same_text(os, "windows") {
        Platform::Windows
    } else {
        Platform::Unknown
    }
}

/// The memory of the host in gigabytes. The tool does not measure it and
/// reckons with 8.
pub fn get_available_ram_gb() -> (ram_gb: usize)
    ensures
        ram_gb == 8,
{
    8
}

/// The tag advised for a host of kind `platform` with `ram_gb` gigabytes of
/// memory.
pub open spec fn recommended_tag(platform: Platform, ram_gb: int) -> Seq<char> {
    if platform == Platform::Termux {
        "q4_0"@
    } else if ram_gb < 8 {
        "q4_k_m"@
    } else if ram_gb < 16 {
        "q5_k_m"@
    } else {
        "q8_0"@
    }
}

/// Advises a quantization tag. A Termux host always gets the smallest tag;
/// elsewhere the tag grows with memory, the thresholds being 8 and 16.
pub fn recommend_quantization(platform: Platform, ram_gb: usize) -> (tag: &'static str)
    ensures
        tag@ == recommended_tag(platform, ram_gb as int),
{
    match platform {
        Platform::Termux => "q4_0",
        _ => {
            if ram_gb < 8 {
                "q4_k_m"
            } else if ram_gb < 16 {
                "q5_k_m"
            } else {
                "q8_0"
            }
        },
    }
}

/// A Termux host is advised the smallest of the usual tags, whatever its
/// memory.
pub proof fn termux_gets_smallest(ram_gb: int)
    ensures
        recommended_tag(Platform::Termux, ram_gb) == quant_tags()[0],
{
}

/// On any other host the advice goes by memory alone: below 8 gigabytes
/// `q4_k_m`, from 8 and below 16 `q5_k_m`, from 16 on `q8_0`.
pub proof fn advice_goes_by_memory(platform: Platform, ram_gb: int)
    requires
        platform != Platform::Termux,
    ensures
        ram_gb < 8 ==> recommended_tag(platform, ram_gb) == "q4_k_m"@,
        8 <= ram_gb < 16 ==> recommended_tag(platform, ram_gb) == "q5_k_m"@,
        16 <= ram_gb ==> recommended_tag(platform, ram_gb) == "q8_0"@,
{
}

} // verus!
