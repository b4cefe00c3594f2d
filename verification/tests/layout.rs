//! The fixed-layout records must match the ELF ABI sizes and alignments.

use quack::elf::parse::ffi_types::{
    EIClassUnchecked, EIDataUnchecked, EIOsAbiUnchecked, EIdent, EMachineUnchecked,
    ETypeUnchecked, Elf32Offs, Elf64Offs, ElfHead32, ElfHead64, ElfNonArchDep, ElfNonArchDep2,
    PTypeUnchecked, ProgHead32, ProgHead64, SectHead32, SectHead64, SectNonArchDep,
    ShTypeUnchecked, Sym32, Sym64,
};
use quack::os::macos::Stat64;
use quack::utils::ToKnown;
use std::mem::{align_of, size_of};

#[test]
fn sizes_and_alignments() {
    assert_eq!(align_of::<EIdent>(), 1);
    assert_eq!(align_of::<ElfNonArchDep>(), 4);
    assert_eq!(align_of::<Elf32Offs>(), 4);
    assert_eq!(align_of::<Elf64Offs>(), 8);
    assert_eq!(align_of::<ElfNonArchDep2>(), 4);
    assert_eq!(align_of::<ElfHead32>(), 4);
    assert_eq!(align_of::<ElfHead64>(), 8);
    assert_eq!(align_of::<ProgHead32>(), 4);
    assert_eq!(align_of::<ProgHead64>(), 8);
    assert_eq!(align_of::<SectNonArchDep>(), 4);
    assert_eq!(align_of::<SectHead32>(), 4);
    assert_eq!(align_of::<SectHead64>(), 8);
    assert_eq!(align_of::<Sym32>(), 4);
    assert_eq!(align_of::<Sym64>(), 8);

    assert_eq!(size_of::<EIdent>(), 16);
    assert_eq!(size_of::<ElfNonArchDep>(), 24);
    assert_eq!(size_of::<Elf32Offs>(), 12);
    assert_eq!(size_of::<Elf64Offs>(), 24);
    assert_eq!(size_of::<ElfNonArchDep2>(), 16);
    assert_eq!(size_of::<ElfHead32>(), 52);
    assert_eq!(size_of::<ElfHead64>(), 64);
    assert_eq!(size_of::<ProgHead32>(), 32);
    assert_eq!(size_of::<ProgHead64>(), 56);
    assert_eq!(size_of::<SectNonArchDep>(), 8);
    assert_eq!(size_of::<SectHead32>(), 40);
    assert_eq!(size_of::<SectHead64>(), 64);
    assert_eq!(size_of::<Sym32>(), 16);
    assert_eq!(size_of::<Sym64>(), 24);
}

#[test]
fn ffi_types_sizes_and_alignments() {
    assert_eq!(align_of::<EIdent>(), 1);
    assert_eq!(align_of::<ElfNonArchDep>(), 4);
    assert_eq!(align_of::<Elf32Offs>(), 4);
    assert_eq!(align_of::<Elf64Offs>(), 8);
    assert_eq!(align_of::<ElfNonArchDep2>(), 4);
    assert_eq!(align_of::<ElfHead32>(), 4);
    assert_eq!(align_of::<ElfHead64>(), 8);
    assert_eq!(align_of::<ProgHead32>(), 4);
    assert_eq!(align_of::<ProgHead64>(), 8);
    assert_eq!(align_of::<SectNonArchDep>(), 4);
    assert_eq!(align_of::<SectHead32>(), 4);
    assert_eq!(align_of::<SectHead64>(), 8);
    assert_eq!(align_of::<Sym32>(), 4);
    assert_eq!(align_of::<Sym64>(), 8);

    // A symbolic value and its unchecked form stand for the same raw
    // integer type, so their widths agree with the ELF ABI field widths.
    assert_eq!(align_of::<<EIClassUnchecked as ToKnown>::Unknown>(), 1);
    assert_eq!(align_of::<EIClassUnchecked>(), 1);
    assert_eq!(align_of::<<EIDataUnchecked as ToKnown>::Unknown>(), 1);
    assert_eq!(align_of::<EIDataUnchecked>(), 1);
    assert_eq!(align_of::<<EIOsAbiUnchecked as ToKnown>::Unknown>(), 1);
    assert_eq!(align_of::<EIOsAbiUnchecked>(), 1);
    assert_eq!(align_of::<<EMachineUnchecked as ToKnown>::Unknown>(), 2);
    assert_eq!(align_of::<EMachineUnchecked>(), 2);
    assert_eq!(align_of::<<PTypeUnchecked as ToKnown>::Unknown>(), 4);
    assert_eq!(align_of::<PTypeUnchecked>(), 4);
    assert_eq!(align_of::<<ShTypeUnchecked as ToKnown>::Unknown>(), 4);
    assert_eq!(align_of::<ShTypeUnchecked>(), 4);

    assert_eq!(size_of::<EIdent>(), 16);
    assert_eq!(size_of::<ElfNonArchDep>(), 24);
    assert_eq!(size_of::<Elf32Offs>(), 12);
    assert_eq!(size_of::<Elf64Offs>(), 24);
    assert_eq!(size_of::<ElfNonArchDep2>(), 16);
    assert_eq!(size_of::<ElfHead32>(), 52);
    assert_eq!(size_of::<ElfHead64>(), 64);
    assert_eq!(size_of::<ProgHead32>(), 32);
    assert_eq!(size_of::<ProgHead64>(), 56);
    assert_eq!(size_of::<SectNonArchDep>(), 8);
    assert_eq!(size_of::<SectHead32>(), 40);
    assert_eq!(size_of::<SectHead64>(), 64);
    assert_eq!(size_of::<Sym32>(), 16);
    assert_eq!(size_of::<Sym64>(), 24);

    assert_eq!(size_of::<<EIClassUnchecked as ToKnown>::Unknown>(), 1);
    assert_eq!(size_of::<EIClassUnchecked>(), 1);
    assert_eq!(size_of::<<EIDataUnchecked as ToKnown>::Unknown>(), 1);
    assert_eq!(size_of::<EIDataUnchecked>(), 1);
    assert_eq!(size_of::<<EIOsAbiUnchecked as ToKnown>::Unknown>(), 1);
    assert_eq!(size_of::<EIOsAbiUnchecked>(), 1);
    assert_eq!(size_of::<<EMachineUnchecked as ToKnown>::Unknown>(), 2);
    assert_eq!(size_of::<EMachineUnchecked>(), 2);
    assert_eq!(size_of::<<ETypeUnchecked as ToKnown>::Unknown>(), 2);
    assert_eq!(size_of::<ETypeUnchecked>(), 2);
    assert_eq!(size_of::<<PTypeUnchecked as ToKnown>::Unknown>(), 4);
    assert_eq!(size_of::<PTypeUnchecked>(), 4);
    assert_eq!(size_of::<<ShTypeUnchecked as ToKnown>::Unknown>(), 4);
    assert_eq!(size_of::<ShTypeUnchecked>(), 4);
}

#[test]
fn test_stat_layout() {
    assert_eq!(size_of::<Stat64>(), 144);
    assert_eq!(align_of::<Stat64>(), 8);
}
