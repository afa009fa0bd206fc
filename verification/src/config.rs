//! The persisted configuration's model: its keys, defaults, and the verified
//! get/set rules. Reading and writing the configuration file is the thin
//! caller's work; it hands the values in and takes them back.

use vstd::prelude::*;
use crate::text;

verus! {

/// The tool's configuration.
#[derive(Debug, Clone)]
pub struct Config {
    /// Path to the external extractor, when not on the search path.
    pub ytdlp_path: Option<String>,
    /// Default download directory.
    pub download_dir: String,
    /// Default video quality.
    pub default_quality: String,
    /// Default video format.
    pub default_format: String,
    /// Whether to show progress bars.
    pub show_progress: bool,
    /// Whether to overwrite existing files.
    pub overwrite_files: bool,
}

impl Config {
    /// The built-in defaults, with the platform's download directory handed
    /// in by the caller.
    pub fn with_download_dir(dir: String) -> (r: Self)
        ensures
            r.ytdlp_path is None,
            r.download_dir == dir,
            r.default_quality@ == "best"@,
            r.default_format@ == "mp4"@,
            r.show_progress == true,
            r.overwrite_files == false,
    {
        Config {
            ytdlp_path: None,
            download_dir: dir,
            default_quality: "best".to_owned(),
            default_format: "mp4".to_owned(),
            show_progress: true,
            overwrite_files: false,
        }
    }

    /// The requested quality, with the sentinel `best` replaced by the
    /// configured default.
    pub fn effective_quality(&self, quality: String) -> (r: String)
        ensures
            r@ == (if quality@ == "best"@ {
                self.default_quality@
            } else {
                quality@
            }),
    {
        let qv = text::str_chars(quality.as_str());
        if text::chars_eq_str(&qv, "best") {
            self.default_quality.clone()
        } else {
            quality
        }
    }

    /// The requested format, with the sentinel `mp4` replaced by the
    /// configured default.
    pub fn effective_format(&self, format: String) -> (r: String)
        ensures
            r@ == (if format@ == "mp4"@ {
                self.default_format@
            } else {
                format@
            }),
    {
        let fv = text::str_chars(format.as_str());
        if text::chars_eq_str(&fv, "mp4") {
            self.default_format.clone()
        } else {
            format
        }
    }

    /// The value stored under a configuration key, rendered as text; `None`
    /// for an unknown key. An unset extractor path reads as `none`.
    pub fn get_value(&self, key: &str) -> (r: Option<String>)
        ensures
            ({
                let k = key@;
                if k == "download_dir"@ {
                    r matches Some(v) && v@ == self.download_dir@
                } else if k == "default_quality"@ {
                    r matches Some(v) && v@ == self.default_quality@
                } else if k == "default_format"@ {
                    r matches Some(v) && v@ == self.default_format@
                } else if k == "show_progress"@ {
                    r matches Some(v) && v@ == (if self.show_progress {
                        "true"@
                    } else {
                        "false"@
                    })
                } else if k == "overwrite_files"@ {
                    r matches Some(v) && v@ == (if self.overwrite_files {
                        "true"@
                    } else {
                        "false"@
                    })
                } else if k == "ytdlp_path"@ {
                    r matches Some(v) && v@ == (match self.ytdlp_path {
                        Some(p) => p@,
                        None => "none"@,
                    })
                } else {
                    r is None
                }
            }),
    {
        let kv = text::str_chars(key);
        if text::chars_eq_str(&kv, "download_dir") {
            Some(self.download_dir.clone())
        } else if text::chars_eq_str(&kv, "default_quality") {
            Some(self.default_quality.clone())
        } else if text::chars_eq_str(&kv, "default_format") {
            Some(self.default_format.clone())
        } else if text::chars_eq_str(&kv, "show_progress") {
            if self.show_progress {
                Some("true".to_owned())
            } else {
                Some("false".to_owned())
            }
        } else if text::chars_eq_str(&kv, "overwrite_files") {
            if self.overwrite_files {
                Some("true".to_owned())
            } else {
                Some("false".to_owned())
            }
        } else if text::chars_eq_str(&kv, "ytdlp_path") {
            match &self.ytdlp_path {
                Some(p) => Some(p.clone()),
                None => Some("none".to_owned()),
            }
        } else {
            None
        }
    }

    /// The fields of `b` agree with those of `a`, except where a flag allows
    /// a field to differ.
    pub open spec fn agrees_except(
        a: Config,
        b: Config,
        path_may_change: bool,
        dir_may_change: bool,
        quality_may_change: bool,
        format_may_change: bool,
        progress_may_change: bool,
        overwrite_may_change: bool,
    ) -> bool {
        &&& (!path_may_change ==> a.ytdlp_path == b.ytdlp_path)
        &&& (!dir_may_change ==> a.download_dir == b.download_dir)
        &&& (!quality_may_change ==> a.default_quality == b.default_quality)
        &&& (!format_may_change ==> a.default_format == b.default_format)
        &&& (!progress_may_change ==> a.show_progress == b.show_progress)
        &&& (!overwrite_may_change ==> a.overwrite_files == b.overwrite_files)
    }

    /// Store a value under a configuration key. Returns whether the update
    /// was accepted: the booleans take only `true` or `false`, an unknown
    /// key changes nothing, and the extractor path is cleared by `none`
    /// (matched case-insensitively). Nothing but the named key changes.
    pub fn set_value(&mut self, key: &str, value: &str) -> (r: bool)
        ensures
            ({
                let k = key@;
                let v = value@;
                let a = *old(self);
                let b = *final(self);
                if k == "download_dir"@ {
                    r && b.download_dir@ == v && Config::agrees_except(
                        a,
                        b,
                        false,
                        true,
                        false,
                        false,
                        false,
                        false,
                    )
                } else if k == "default_quality"@ {
                    r && b.default_quality@ == v && Config::agrees_except(
                        a,
                        b,
                        false,
                        false,
                        true,
                        false,
                        false,
                        false,
                    )
                } else if k == "default_format"@ {
                    r && b.default_format@ == v && Config::agrees_except(
                        a,
                        b,
                        false,
                        false,
                        false,
                        true,
                        false,
                        false,
                    )
                } else if k == "show_progress"@ {
                    if v == "true"@ || v == "false"@ {
                        r && b.show_progress == (v == "true"@) && Config::agrees_except(
                            a,
                            b,
                            false,
                            false,
                            false,
                            false,
                            true,
                            false,
                        )
                    } else {
                        !r && b == a
                    }
                } else if k == "overwrite_files"@ {
                    if v == "true"@ || v == "false"@ {
                        r && b.overwrite_files == (v == "true"@) && Config::agrees_except(
                            a,
                            b,
                            false,
                            false,
                            false,
                            false,
                            false,
                            true,
                        )
                    } else {
                        !r && b == a
                    }
                } else if k == "ytdlp_path"@ {
                    r && (if text::lower_seq(v) == "none"@ {
                        b.ytdlp_path is None
                    } else {
                        b.ytdlp_path matches Some(p) && p@ == v
                    }) && Config::agrees_except(a, b, true, false, false, false, false, false)
                } else {
                    !r && b == a
                }
            }),
    {
        let kv = text::str_chars(key);
        if text::chars_eq_str(&kv, "download_dir") {
            self.download_dir = value.to_owned();
            true
        } else if text::chars_eq_str(&kv, "default_quality") {
            self.default_quality = value.to_owned();
            true
        } else if text::chars_eq_str(&kv, "default_format") {
            self.default_format = value.to_owned();
            true
        } else if text::chars_eq_str(&kv, "show_progress") {
            let vv = text::str_chars(value);
            if text::chars_eq_str(&vv, "true") {
                self.show_progress = true;
                true
            } else if text::chars_eq_str(&vv, "false") {
                self.show_progress = false;
                true
            } else {
                false
            }
        } else if text::chars_eq_str(&kv, "overwrite_files") {
            let vv = text::str_chars(value);
            if text::chars_eq_str(&vv, "true") {
                self.overwrite_files = true;
                true
            } else if text::chars_eq_str(&vv, "false") {
                self.overwrite_files = false;
                true
            } else {
                false
            }
        } else if text::chars_eq_str(&kv, "ytdlp_path") {
            let vv = text::str_chars(value);
            let lowered = text::to_lower(&vv);
            if text::chars_eq_str(&lowered, "none") {
                self.ytdlp_path = None;
                true
            } else {
                self.ytdlp_path = Some(value.to_owned());
                true
            }
        } else {
            false
        }
    }
}

impl Default for Config {
    /// The built-in defaults with the current directory for downloads.
    fn default() -> (r: Self)
        ensures
            r.ytdlp_path is None,
            r.download_dir@ == "."@,
            r.default_quality@ == "best"@,
            r.default_format@ == "mp4"@,
            r.show_progress == true,
            r.overwrite_files == false,
    {
        Config::with_download_dir(".".to_owned())
    }
}

} // verus!
