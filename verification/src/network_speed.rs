//! The network speed widget.

use vstd::prelude::*;
use vstd::string::*;

use crate::config;
use crate::config::WidgetEntry;
use crate::text;

verus! {

/// Which speeds are shown.
#[derive(Debug, Clone, Copy, PartialEq, Eq, Structural)]
pub enum NetworkSpeedFormat {
    Both,
    Download,
    Upload,
}

impl Default for NetworkSpeedFormat {
    fn default() -> (f: Self)
        ensures
            f == NetworkSpeedFormat::Both,
    {
        NetworkSpeedFormat::Both
    }
}

/// The format of a name in small letters.
pub open spec fn speed_format_of(lowered: Seq<char>) -> NetworkSpeedFormat {
    if lowered == "download"@ || lowered == "dl"@ {
        NetworkSpeedFormat::Download
    } else if lowered == "upload"@ || lowered == "ul"@ {
        NetworkSpeedFormat::Upload
    } else {
        NetworkSpeedFormat::Both
    }
}

impl NetworkSpeedFormat {
    /// The format of a name in small letters.
    pub fn from_lowered(lowered: &str) -> (f: Self)
        ensures
            f == speed_format_of(lowered@),
    {
        if text::str_eq(lowered, "download") || text::str_eq(lowered, "dl") {
            NetworkSpeedFormat::Download
        } else if text::str_eq(lowered, "upload") || text::str_eq(lowered, "ul") {
            NetworkSpeedFormat::Upload
        } else {
            NetworkSpeedFormat::Both
        }
    }

    /// The format of a name, whatever its case.
    pub fn from_str(s: &str) -> (f: Self)
        ensures
            f == speed_format_of(text::lowercase_text(s@)),
    {
        Self::from_lowered(text::lowercase(s).as_str())
    }

    pub open spec fn shows_download(self) -> bool {
        self != NetworkSpeedFormat::Upload
    }

    pub open spec fn shows_upload(self) -> bool {
        self != NetworkSpeedFormat::Download
    }
}

#[derive(Debug, Clone, Copy)]
pub struct NetworkSpeedConfig {
    pub show_icon: bool,
    /// Whether arrows show the direction.
    pub show_arrows: bool,
    pub format: NetworkSpeedFormat,
}

impl Default for NetworkSpeedConfig {
    fn default() -> (c: Self)
        ensures
            c == (NetworkSpeedConfig {
                show_icon: true,
                show_arrows: true,
                format: NetworkSpeedFormat::Both,
            }),
    {
        NetworkSpeedConfig {
            show_icon: true,
            show_arrows: true,
            format: NetworkSpeedFormat::Both,
        }
    }
}

/// The parts of the widget.
#[derive(Debug, Clone, Copy, PartialEq, Eq, Structural)]
pub struct SpeedLayout {
    pub icon_visible: bool,
    pub download: bool,
    pub upload: bool,
    pub arrows: bool,
}

impl NetworkSpeedConfig {
    /// Reads the configuration; what is absent has its default.
    pub fn from_entry(entry: &WidgetEntry) -> (c: Self)
        ensures
            c.show_icon == config::boolean_or(entry.options@, "show_icon"@, true),
            c.show_arrows == config::boolean_or(entry.options@, "show_arrows"@, true),
            c.format == match config::text_option(entry.options@, "format"@) {
                Some(s) => speed_format_of(text::lowercase_text(s)),
                None => NetworkSpeedFormat::Both,
            },
    {
        let format = match entry.text("format") {
            Some(s) => NetworkSpeedFormat::from_str(s),
            None => NetworkSpeedFormat::Both,
        };
        NetworkSpeedConfig {
            show_icon: entry.boolean_or("show_icon", true),
            show_arrows: entry.boolean_or("show_arrows", true),
            format,
        }
    }

    /// The parts that the widget is built from.
    pub fn layout(&self) -> (l: SpeedLayout)
        ensures
            l == (SpeedLayout {
                icon_visible: self.show_icon,
                download: self.format.shows_download(),
                upload: self.format.shows_upload(),
                arrows: self.show_arrows,
            }),
    {
        let (download, upload) = match self.format {
            NetworkSpeedFormat::Both => (true, true),
            NetworkSpeedFormat::Download => (true, false),
            NetworkSpeedFormat::Upload => (false, true),
        };
        SpeedLayout { icon_visible: self.show_icon, download, upload, arrows: self.show_arrows }
    }
}

/// What changes in the widget.
#[derive(Debug)]
pub struct SpeedUpdate {
    /// The icon's visibility, where it is set.
    pub icon_visible: Option<bool>,
    /// The download label, where the widget has one.
    pub download: Option<String>,
    pub upload: Option<String>,
    /// The arrows that the widget has are shown.
    pub show_arrows: bool,
    pub tooltip: String,
}

/// The tooltip while speeds are known.
pub open spec fn speed_tooltip(
    format: NetworkSpeedFormat,
    download: Seq<char>,
    upload: Seq<char>,
) -> Seq<char> {
    match format {
        NetworkSpeedFormat::Both => "Download: "@ + download + "\nUpload: "@ + upload,
        NetworkSpeedFormat::Download => "Download: "@ + download,
        NetworkSpeedFormat::Upload => "Upload: "@ + upload,
    }
}

/// What a label shows, where the widget has it.
pub open spec fn label_text(present: bool, t: Seq<char>) -> Option<Seq<char>> {
    if present {
        Some(t)
    } else {
        None
    }
}

/// What changes in the widget when a reading comes in. `download` and `upload`
/// are the speeds as texts.
pub fn update_network_widget(
    config: &NetworkSpeedConfig,
    available: bool,
    download: &str,
    upload: &str,
) -> (r: SpeedUpdate)
    ensures
        !available ==> {
            &&& r.icon_visible == if config.show_icon {
                Some(true)
            } else {
                None
            }
            &&& text::opt_string_view(r.download) == label_text(
                config.format.shows_download(),
                "?"@,
            )
            &&& text::opt_string_view(r.upload) == label_text(config.format.shows_upload(), "?"@)
            &&& !r.show_arrows
            &&& r.tooltip@ == "Network: Service unavailable"@
        },
        available ==> {
            &&& r.icon_visible == Some(config.show_icon)
            &&& text::opt_string_view(r.download) == label_text(
                config.format.shows_download(),
                download@,
            )
            &&& text::opt_string_view(r.upload) == label_text(
                config.format.shows_upload(),
                upload@,
            )
            &&& r.show_arrows
            &&& r.tooltip@ == speed_tooltip(config.format, download@, upload@)
        },
{
    let layout = config.layout();
    let dl: &str = if available {
        download
    } else {
        "?"
    };
    let ul: &str = if available {
        upload
    } else {
        "?"
    };
    let icon_visible = if available {
        Some(config.show_icon)
    } else if config.show_icon {
        Some(true)
    } else {
        None
    };
    let tooltip = if available {
        match config.format {
            NetworkSpeedFormat::Both => {
                let mut t = "Download: ".to_string();
                t.append(download);
                t.append("\nUpload: ");
                t.append(upload);
                t
            },
            NetworkSpeedFormat::Download => {
                let mut t = "Download: ".to_string();
                t.append(download);
                t
            },
            NetworkSpeedFormat::Upload => {
                let mut t = "Upload: ".to_string();
                t.append(upload);
                t
            },
        }
    } else {
        "Network: Service unavailable".to_string()
    };
    SpeedUpdate {
        icon_visible,
        download: if layout.download {
            Some(dl.to_string())
        } else {
            None
        },
        upload: if layout.upload {
            Some(ul.to_string())
        } else {
            None
        },
        show_arrows: available,
        tooltip,
    }
}

/// Whatever the format, at least one speed is shown.
pub proof fn law_some_speed_is_shown(format: NetworkSpeedFormat)
    ensures
        format.shows_download() || format.shows_upload(),
{
}

} // verus!
