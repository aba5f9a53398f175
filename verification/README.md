# Nicotine

Cycles between the clients of a multi-client game: by hotkeys, by the side
buttons of the mouse, or by its wheel with a modifier held. It also measures
how much of each client can be seen, stacks the clients, starts at login and
sits in the system tray.

`src/` is the verified library. It decides; it never calls the operating
system.

- `windows_input`, `mouse_listener`: what a mouse event leads to
- `hotkeys`: which hotkeys to register, and what their messages mean
- `cycle`: the course of a change of focus
- `activation`: the course of bringing a window to the foreground
- `windows_manager`: which windows are clients, and where they go
- `geometry`, `visibility`: the visible share of a window, pixel by pixel
- `device_search`, `evdev_input`: which input device is the mouse
- `linux_input_state`: which modifiers are held
- `autostart`, `tray`: starting at login, and the tray icon
- `config`, `keys`, `bits`, `text`, `wide`: what the others share

Where calls and decisions alternate, a type of the library says which call is
due and takes its outcome. `app/` makes these calls.
