# aleph0

The verified core of a UEFI hypervisor's Intel VT-x bring-up.

- `src/` is the library, proved with Verus: VMX detection from CPUID and
  IA32_FEATURE_CONTROL, the CR4/CR0 values VMX needs, MSR value handling,
  decoding of VMX instruction outcomes, the order of the steps that enter VMX
  root operation and test a VMCS (as step-by-step state machines), and the
  decoding of descriptor tables and system descriptors.
- `app/` is the UEFI program around it: the privileged instructions, the
  firmware page allocation and the console output. It performs each action
  the library's state machines ask for and hands the result back.
- `tests/` exercises the library on concrete values.
