use krilla::version::{
    read_icc_header, BitsPerComponent, ColorModel, DepthPolicy, ICCMetadata, ICCProfile,
    PdfVersion, ProfileGeneration, VersionError,
};

const ALL: [PdfVersion; 5] = [
    PdfVersion::Pdf14,
    PdfVersion::Pdf15,
    PdfVersion::Pdf16,
    PdfVersion::Pdf17,
    PdfVersion::Pdf20,
];

#[test]
fn as_str_names_each_version() {
    assert_eq!(PdfVersion::Pdf14.as_str(), "PDF 1.4");
    assert_eq!(PdfVersion::Pdf15.as_str(), "PDF 1.5");
    assert_eq!(PdfVersion::Pdf16.as_str(), "PDF 1.6");
    assert_eq!(PdfVersion::Pdf17.as_str(), "PDF 1.7");
    assert_eq!(PdfVersion::Pdf20.as_str(), "PDF 2.0");
}

#[test]
fn number_str_and_numbers_agree() {
    assert_eq!(PdfVersion::Pdf14.number_str(), "1.4");
    assert_eq!(PdfVersion::Pdf20.number_str(), "2.0");
    assert_eq!(PdfVersion::Pdf16.numbers(), (1, 6));
    assert_eq!(PdfVersion::Pdf20.numbers(), (2, 0));
    for v in ALL {
        let (major, minor) = v.numbers();
        assert_eq!(v.number_str(), format!("{}.{}", major, minor));
        assert_eq!(v.as_str(), format!("PDF {}", v.number_str()));
    }
}

#[test]
fn versions_are_ordered_by_release() {
    for (i, a) in ALL.iter().enumerate() {
        assert_eq!(a.ordinal() as usize, i);
        for (j, b) in ALL.iter().enumerate() {
            assert_eq!(a < b, i < j);
            assert_eq!(a.at_least(*b), i >= j);
        }
    }
}

#[test]
fn profiles_switch_generation_at_1_7() {
    for v in [PdfVersion::Pdf14, PdfVersion::Pdf15, PdfVersion::Pdf16] {
        assert_eq!(
            v.rgb_icc(),
            ICCProfile { model: ColorModel::Rgb, generation: ProfileGeneration::Legacy }
        );
        assert_eq!(
            v.grey_icc(),
            ICCProfile { model: ColorModel::Grey, generation: ProfileGeneration::Legacy }
        );
    }
    for v in [PdfVersion::Pdf17, PdfVersion::Pdf20] {
        assert_eq!(
            v.rgb_icc(),
            ICCProfile { model: ColorModel::Rgb, generation: ProfileGeneration::Modern }
        );
        assert_eq!(
            v.grey_icc(),
            ICCProfile { model: ColorModel::Grey, generation: ProfileGeneration::Modern }
        );
    }
}

#[test]
fn profile_selection_is_stable() {
    for v in ALL {
        assert_eq!(v.rgb_icc(), v.rgb_icc());
        assert_eq!(v.grey_icc(), v.grey_icc());
        assert_eq!(v.profile_for(ColorModel::Rgb), v.rgb_icc());
        assert_eq!(v.profile_for(ColorModel::Grey), v.grey_icc());
        assert_eq!(v.rgb_icc().model.components(), 3);
        assert_eq!(v.grey_icc().model.components(), 1);
    }
}

#[test]
fn supports_icc_follows_the_table() {
    let m = |major, minor| ICCMetadata { major, minor };
    assert!(PdfVersion::Pdf14.supports_icc(&m(2, 2)));
    assert!(!PdfVersion::Pdf14.supports_icc(&m(3, 0)));
    assert!(!PdfVersion::Pdf14.supports_icc(&m(2, 3)));
    assert!(PdfVersion::Pdf15.supports_icc(&m(4, 1)));
    assert!(PdfVersion::Pdf15.supports_icc(&m(2, 2)));
    assert!(!PdfVersion::Pdf15.supports_icc(&m(4, 2)));
    assert!(!PdfVersion::Pdf15.supports_icc(&m(4, 200)));
    assert!(!PdfVersion::Pdf15.supports_icc(&m(5, 0)));
    assert!(PdfVersion::Pdf16.supports_icc(&m(4, 1)));
    assert!(PdfVersion::Pdf16.supports_icc(&m(2, 2)));
    assert!(!PdfVersion::Pdf16.supports_icc(&m(4, 2)));
    assert!(!PdfVersion::Pdf16.supports_icc(&m(3, 2)));
    assert!(PdfVersion::Pdf17.supports_icc(&m(4, 2)));
    assert!(!PdfVersion::Pdf17.supports_icc(&m(4, 3)));
    assert!(PdfVersion::Pdf20.supports_icc(&m(4, 2)));
    assert!(!PdfVersion::Pdf20.supports_icc(&m(5, 2)));
    assert!(!PdfVersion::Pdf20.supports_icc(&m(4, 3)));
}

#[test]
fn bit_depth_gate() {
    assert!(!PdfVersion::Pdf14.supports_bit_depth(BitsPerComponent::Sixteen));
    assert!(PdfVersion::Pdf15.supports_bit_depth(BitsPerComponent::Sixteen));
    for v in ALL {
        assert!(v.supports_bit_depth(BitsPerComponent::Eight));
    }
}

#[test]
fn deprecation_boundary() {
    assert!(!PdfVersion::Pdf17.deprecates_proc_sets());
    assert!(!PdfVersion::Pdf17.deprecates_cid_set());
    assert!(PdfVersion::Pdf20.deprecates_proc_sets());
    assert!(PdfVersion::Pdf20.deprecates_cid_set());
    for v in [PdfVersion::Pdf14, PdfVersion::Pdf15, PdfVersion::Pdf16] {
        assert!(!v.deprecates_proc_sets());
        assert!(!v.deprecates_cid_set());
    }
}

#[test]
fn capabilities_are_monotone_over_all_pairs() {
    for (i, v1) in ALL.iter().enumerate() {
        for v2 in ALL.iter().skip(i) {
            for depth in [BitsPerComponent::Eight, BitsPerComponent::Sixteen] {
                if v1.supports_bit_depth(depth) {
                    assert!(v2.supports_bit_depth(depth));
                }
            }
            if v1.deprecates_proc_sets() {
                assert!(v2.deprecates_proc_sets());
            }
            if v1.deprecates_cid_set() {
                assert!(v2.deprecates_cid_set());
            }
            if v1.rgb_icc().generation == ProfileGeneration::Modern {
                assert_eq!(v2.rgb_icc().generation, ProfileGeneration::Modern);
            }
            for major in 0..=255u8 {
                for minor in 0..=255u8 {
                    let m = ICCMetadata { major, minor };
                    if v1.supports_icc(&m) {
                        assert!(v2.supports_icc(&m));
                    }
                }
            }
        }
    }
}

#[test]
fn every_version_takes_what_1_4_takes_and_nothing_that_2_0_refuses() {
    for v in ALL {
        for major in 0..=255u8 {
            for minor in 0..=255u8 {
                let m = ICCMetadata { major, minor };
                let taken = v.supports_icc(&m);
                if major <= 2 && minor <= 2 {
                    assert!(taken);
                }
                if taken {
                    assert!(major <= 4 && minor <= 2);
                }
                assert_eq!(PdfVersion::Pdf14.supports_icc(&m), major <= 2 && minor <= 2);
                assert_eq!(PdfVersion::Pdf20.supports_icc(&m), major <= 4 && minor <= 2);
            }
        }
    }
    assert!(PdfVersion::Pdf16.supports_icc(&ICCMetadata { major: 2, minor: 2 }));
    assert!(!PdfVersion::Pdf15.supports_icc(&ICCMetadata { major: 4, minor: 3 }));
}

#[test]
fn header_bytes_name_the_version() {
    assert_eq!(PdfVersion::Pdf14.header_bytes(), b"%PDF-1.4\n%\x80\x80\x80\x80\n\n".to_vec());
    assert_eq!(PdfVersion::Pdf15.header_bytes(), b"%PDF-1.5\n%\x80\x80\x80\x80\n\n".to_vec());
    assert_eq!(PdfVersion::Pdf16.header_bytes(), b"%PDF-1.6\n%\x80\x80\x80\x80\n\n".to_vec());
    assert_eq!(PdfVersion::Pdf17.header_bytes(), b"%PDF-1.7\n%\x80\x80\x80\x80\n\n".to_vec());
    assert_eq!(PdfVersion::Pdf20.header_bytes(), b"%PDF-2.0\n%\x80\x80\x80\x80\n\n".to_vec());
}

#[test]
fn set_version_rewrites_the_header_of_a_writer() {
    let mut pdf = pdf_writer::Pdf::new();
    assert_eq!(&pdf.as_bytes()[..8], b"%PDF-1.7");
    PdfVersion::Pdf20.set_version(&mut pdf);
    assert_eq!(pdf.as_bytes(), b"%PDF-2.0\n%\x80\x80\x80\x80\n\n");
    PdfVersion::Pdf14.set_version(&mut pdf);
    assert_eq!(&pdf.as_bytes()[..8], b"%PDF-1.4");
    let out = pdf.finish();
    assert!(out.starts_with(b"%PDF-1.4\n"));
}

#[test]
fn start_pdf_gives_a_writer_of_the_version() {
    let pdf = PdfVersion::Pdf15.start_pdf();
    assert_eq!(pdf.as_bytes(), b"%PDF-1.5\n%\x80\x80\x80\x80\n\n");
}

#[test]
fn write_xmp_appends_the_version_element() {
    for v in ALL {
        let mut xmp = xmp_writer::XmpWriter::new();
        xmp.producer("tester");
        v.write_xmp(&mut xmp);
        let packet = xmp.finish(None);
        let expected = format!(
            "<pdf:Producer>tester</pdf:Producer><pdf:PDFVersion>{}</pdf:PDFVersion>",
            v.number_str()
        );
        assert!(packet.contains(&expected), "{}", packet);
    }
}

#[test]
fn sixteen_bits_at_1_4_are_rejected_or_downsampled() {
    let v = PdfVersion::Pdf14;
    assert_eq!(
        v.resolve_bit_depth(BitsPerComponent::Sixteen, DepthPolicy::Reject),
        Err(VersionError::BitDepth)
    );
    assert_eq!(
        v.resolve_bit_depth(BitsPerComponent::Sixteen, DepthPolicy::Downsample),
        Ok(BitsPerComponent::Eight)
    );
    for policy in [DepthPolicy::Reject, DepthPolicy::Downsample] {
        assert_eq!(
            PdfVersion::Pdf15.resolve_bit_depth(BitsPerComponent::Sixteen, policy),
            Ok(BitsPerComponent::Sixteen)
        );
        for v in ALL {
            assert_eq!(
                v.resolve_bit_depth(BitsPerComponent::Eight, policy),
                Ok(BitsPerComponent::Eight)
            );
        }
    }
}

#[test]
fn check_icc_reports_a_profile_that_does_not_fit() {
    assert_eq!(PdfVersion::Pdf14.check_icc(&ICCMetadata { major: 2, minor: 2 }), Ok(()));
    assert_eq!(
        PdfVersion::Pdf14.check_icc(&ICCMetadata { major: 4, minor: 2 }),
        Err(VersionError::Profile)
    );
    assert_eq!(PdfVersion::Pdf20.check_icc(&ICCMetadata { major: 4, minor: 2 }), Ok(()));
    assert_eq!(
        PdfVersion::Pdf20.check_icc(&ICCMetadata { major: 4, minor: 3 }),
        Err(VersionError::Profile)
    );
}

#[test]
fn read_icc_header_reads_revision_and_model() {
    let mut data = vec![0u8; 128];
    data[8] = 4;
    data[9] = 0x20;
    data[16..20].copy_from_slice(b"RGB ");
    assert_eq!(read_icc_header(&data), Some((ICCMetadata { major: 4, minor: 2 }, ColorModel::Rgb)));
    data[8] = 2;
    data[9] = 0x1f;
    data[16..20].copy_from_slice(b"GRAY");
    assert_eq!(
        read_icc_header(&data),
        Some((ICCMetadata { major: 2, minor: 1 }, ColorModel::Grey))
    );
    data[16..20].copy_from_slice(b"CMYK");
    assert_eq!(read_icc_header(&data), None);
    data[16..20].copy_from_slice(b"RGB ");
    assert_eq!(read_icc_header(&data[..127]), None);
    assert_eq!(read_icc_header(&[]), None);
}
