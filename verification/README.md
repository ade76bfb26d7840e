# vm_compatibility_tool

Inspection and remediation logic for a Windows tool that checks whether
other hypervisors can run (Hyper-V, WSL, VBS, core isolation) and, on
request, switches those features off.

- `src/` is the library, verified with Verus: the registry manifest, the
  parsing of DISM, `bcdedit` and PowerShell output, the system information
  and inspection tables, the remediation decisions, and the text of the CSV
  exports, the operation log and the `.reg` backup. Laws stated as proof
  functions (`law_*`) hold for every input.
- `app/` is the program around it: WMI, registry and process I/O, file
  writes, and a command line that prints JSON.
- `tests/` runs the library on concrete inputs.

Registry policy: a value is changed only when it exists and differs from
its target (0); a missing value is never created.
On a device managed by an organization (Azure AD joined or enrolled in a
corporate MDM), values under `HKLM\SOFTWARE\Policies\` are left alone.
Entries excluded from automatic action are still shown by the inspection,
as reference rows marked "(참고)".
DeviceGuard `Locked` is only inspected (a registry write does not lift the
UEFI lock), and the vulnerable-driver blocklist is excluded from automatic
action; it can be chosen by hand like the other excluded entries.
