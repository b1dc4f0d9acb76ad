# vibepanel

The logic of a status bar for Wayland: what its widgets show, what their menus
do, how its panels open and close, how it talks to iwd and to wallpaper daemons.
`src/` is a library verified with Verus. `app/` is ordinary Rust around it: files,
sockets, processes, the bus and the toolkit.

## Layout

| Module | What it holds |
| --- | --- |
| `text`, `names`, `config`, `callbacks` | strings, maps by name, options of a widget, listeners |
| `hyprwire`, `hyprpaper`, `wallpaper` | the wire format of hyprpaper, the exchange with it, and the answers of the other wallpaper daemons |
| `wallpaper_theme`, `sourced_theme` | colours and themes out of a picture, and a theme with the colour it was made of |
| `iwd`, `iwd_events`, `iwd_networks`, `iwd_laws` | the Wi-Fi service: its state, its events, its list of networks, and what always holds of it |
| `network`, `network_card`, `wifi_list`, `password_dialog`, `network_state` | the network card of the Quick Settings |
| `vpn_card`, `quick_settings`, `bar_widget` | the VPN card, the Quick Settings panel and its widget in the bar |
| `layer_shell_popover`, `base`, `ripple` | popovers, menus and clicks of widgets, ripples |
| `custom`, `keyboard_layout`, `network_speed`, `control_panel`, `notification_common`, `window_title`, `workspace` | widgets and their services |
| `css` | the style sheets |

State that lives on the bus or on screen is kept by state machines: an event comes
in, the next state and a list of effects go out, and `app/` performs the effects.
Contracts state both exactly, over mathematical views of the types. What relates
several functions, or holds in every state, is proved in functions named `law_*`.

## What is trusted

Calls into other crates stand behind functions marked `external_body`, each with
a comment that says what is claimed of the call: `chrono` (time and date texts),
`image` (scaling), `material_colors` (main colours, ranking, themes)
and a few functions of `std` (`str::to_lowercase`, `str::to_uppercase`,
`String::from_utf8`). Floating point is left to `app/`, and so is the decoding of
pictures: decoders may panic on files that were made to break them, and verified
functions never do, so a picture is decoded where a panic is caught.
