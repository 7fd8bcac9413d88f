# ledger_manager

Install and update the Bitcoin application on Ledger Nano S, S Plus and X devices,
check that a device is genuine, update its firmware or repair a device stuck in its
bootloader.

The library (`src/`) is written in Verus and verified: every public function states in
its contract what it returns, and the laws of the library (the HID framing parses back,
the hexadecimal wire form of a command decodes back, the firmware update and the repair
never flash the MCU more than five times, the lenient and strict readers of the device's
answers agree) are proved there.

- `protocol`, `transport`: HID framing of APDU commands, status words, transport errors.
- `apdu`, `hexcodec`, `constants`: commands and their hexadecimal form.
- `device`, `error`: the device's answers (version, installed apps) and their errors.
- `hsm`: what to do with each message of Ledger's remote HSM.
- `urls`: the Ledger Manager API requests and the HSM session URLs.
- `apps`, `fwupdate`, `web`: the flows (install, update, genuine check, firmware lookup,
  update and repair), as step functions that the caller drives.
- `firmware`, `version`: firmware metadata, MCU choice, version names.
- `operations`: the messages the command line shows.

`app/` is the command line around the library: USB HID, HTTP and websocket I/O, the
interactive menu and the `LEDGER_COMMAND` mode (`getinfo`, `genuinecheck`, `installapp`,
`updateapp`, `openapp`, `updatefirm`, `repairdevice`; `LEDGER_TESTNET` selects the
Bitcoin Test app).
